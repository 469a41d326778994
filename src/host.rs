//! The application host: its lifecycle, the commands it answers for the UI,
//! and the bridge that forwards menu activations to the UI.
//!
//! The host decides; whoever drives the event loop performs what it decides
//! (closing a window, showing a dialog, emitting an event) and reports back
//! what happened.
use crate::command::{command_named, is_command_name, lemma_command_names, Command};
use crate::text_path::{opt_view, path_or_sentinel, CliTextPath, PublishError};
use vstd::prelude::*;

verus! {

/// Where the host is in its life.
#[derive(Debug, Clone, Copy, PartialEq, Eq, Structural)]
pub enum Phase {
    /// Before the event loop: the command line is read here.
    PreInit,
    /// The event loop runs; commands and menu activations are accepted.
    Running,
    /// The main window has closed; the process is on its way out.
    Terminating,
}

/// The host's state over plain values.
pub struct HostView {
    pub phase: Phase,
    /// The published path of the text file, `None` before publication.
    pub text_path: Option<Seq<char>>,
}

/// What can happen to a host.
pub enum HostEvent {
    /// The command line was read; it named this file, or none.
    Publish(Option<Seq<char>>),
    /// The event loop is about to run.
    Start,
    /// The UI called the command `name` from the window `window`.
    Invoke { name: Seq<char>, window: Seq<char> },
    /// The user activated the menu item `id`.
    MenuActivated(Seq<char>),
    /// The window `label` closed.
    WindowClosed(Seq<char>),
}

/// The label of the one window of the application.
pub open spec fn main_window() -> Seq<char> {
    "main"@
}

/// The channel on which menu activations travel to the UI.
pub open spec fn event_channel() -> Seq<char> {
    "back-to-front"@
}

/// The title of the version dialog.
pub open spec fn about_title() -> Seq<char> {
    "バージョン情報"@
}

/// A host that is running has a published path.
pub open spec fn host_wf(v: HostView) -> bool {
    v.phase !is PreInit ==> v.text_path is Some
}

/// The host as it starts.
pub open spec fn initial_host() -> HostView {
    HostView { phase: Phase::PreInit, text_path: None }
}

/// The state after event `e`.
pub open spec fn next(v: HostView, e: HostEvent) -> HostView {
    match e {
        HostEvent::Publish(t) => if v.text_path is None {
            HostView { phase: v.phase, text_path: Some(path_or_sentinel(t)) }
        } else {
            v
        },
        HostEvent::Start => if v.phase is PreInit && v.text_path is Some {
            HostView { phase: Phase::Running, text_path: v.text_path }
        } else {
            v
        },
        HostEvent::Invoke { .. } => v,
        HostEvent::MenuActivated(_) => v,
        HostEvent::WindowClosed(label) => if v.phase is Running && label == main_window() {
            HostView { phase: Phase::Terminating, text_path: v.text_path }
        } else {
            v
        },
    }
}

/// The state after the events of `es`, in order.
pub open spec fn run(v: HostView, es: Seq<HostEvent>) -> HostView
    decreases es.len(),
{
    if es.len() == 0 {
        v
    } else {
        run(next(v, es[0]), es.drop_first())
    }
}

/// The version dialog, over plain values.
pub struct AboutDialogView {
    pub parent: Seq<char>,
    pub title: Seq<char>,
    pub body: Seq<char>,
}

/// The version dialog for a package of that name and version.
pub open spec fn about_dialog(pkg_name: Seq<char>, pkg_version: Seq<char>) -> AboutDialogView {
    AboutDialogView {
        parent: main_window(),
        title: about_title(),
        body: pkg_name + " "@ + pkg_version,
    }
}

/// What a command asks of the host, over plain values.
pub enum ReplyView {
    TextPath(Seq<char>),
    CloseWindow(Seq<char>),
    ShowAbout(AboutDialogView),
}

/// Why the host refused a command.
#[derive(Debug, Clone, Copy, PartialEq, Eq)]
pub enum DispatchError {
    /// No command is registered under the name called.
    UnknownCommand,
    /// The event loop is not running.
    NotRunning,
}

/// What the call of command `name` from window `window` gives.
pub open spec fn invoke_result(
    v: HostView,
    name: Seq<char>,
    window: Seq<char>,
    pkg_name: Seq<char>,
    pkg_version: Seq<char>,
) -> Result<ReplyView, DispatchError> {
    match command_named(name) {
        None => Err(DispatchError::UnknownCommand),
        Some(c) => if v.phase !is Running {
            Err(DispatchError::NotRunning)
        } else {
            match c {
                Command::GetCliTextPath => Ok(ReplyView::TextPath(v.text_path.unwrap())),
                Command::MenuFileExit => Ok(ReplyView::CloseWindow(window)),
                Command::MenuHelpAbout => Ok(
                    ReplyView::ShowAbout(about_dialog(pkg_name, pkg_version)),
                ),
            }
        },
    }
}

/// The messages sent to the UI when menu item `id` is activated: one, on the
/// event channel, carrying the identifier, while the loop runs.
pub open spec fn menu_broadcasts(v: HostView, id: Seq<char>) -> Seq<(Seq<char>, Seq<char>)> {
    if v.phase is Running {
        seq![(event_channel(), id)]
    } else {
        Seq::empty()
    }
}

/// The exit status once window `label` has closed, if the process ends there.
pub open spec fn exit_status(v: HostView, label: Seq<char>) -> Option<int> {
    if v.phase is Running && label == main_window() {
        Some(0)
    } else {
        None
    }
}

/// The version dialog: shown over the window `parent`.
#[derive(Debug, Clone, PartialEq, Eq)]
pub struct AboutDialog {
    pub parent: String,
    pub title: String,
    pub body: String,
}

impl View for AboutDialog {
    type V = AboutDialogView;

    open spec fn view(&self) -> AboutDialogView {
        AboutDialogView { parent: self.parent@, title: self.title@, body: self.body@ }
    }
}

/// What a command asks of the host.
#[derive(Debug, Clone, PartialEq, Eq)]
pub enum Reply {
    /// Hand this path back to the UI.
    TextPath(String),
    /// Close the window with this label.
    CloseWindow(String),
    /// Show this dialog, without waiting for it to be dismissed.
    ShowAbout(AboutDialog),
}

impl View for Reply {
    type V = ReplyView;

    open spec fn view(&self) -> ReplyView {
        match self {
            Reply::TextPath(p) => ReplyView::TextPath(p@),
            Reply::CloseWindow(w) => ReplyView::CloseWindow(w@),
            Reply::ShowAbout(d) => ReplyView::ShowAbout(d@),
        }
    }
}

pub open spec fn result_view(r: Result<Reply, DispatchError>) -> Result<ReplyView, DispatchError> {
    match r {
        Ok(reply) => Ok(reply@),
        Err(e) => Err(e),
    }
}

/// A message to every UI subscriber of `channel`.
#[derive(Debug, Clone, PartialEq, Eq)]
pub struct Broadcast {
    pub channel: String,
    pub payload: String,
}

impl View for Broadcast {
    type V = (Seq<char>, Seq<char>);

    open spec fn view(&self) -> (Seq<char>, Seq<char>) {
        (self.channel@, self.payload@)
    }
}

/// Why the event loop could not start.
#[derive(Debug, Clone, Copy, PartialEq, Eq)]
pub enum StartError {
    /// The command line has not been read yet.
    NotPublished,
    /// The loop has already started.
    AlreadyStarted,
}

/// The native side of the editor.
pub struct Host {
    phase: Phase,
    text_path: CliTextPath,
}

impl View for Host {
    type V = HostView;

    closed spec fn view(&self) -> HostView {
        HostView { phase: self.phase, text_path: self.text_path@ }
    }
}

impl Host {
    /// The host keeps its published path once running.
    pub open spec fn wf(&self) -> bool {
        host_wf(self@)
    }

    /// A host before the command line has been read.
    pub fn new() -> (r: Host)
        ensures
            r@ == initial_host(),
            r.wf(),
    {
        Host { phase: Phase::PreInit, text_path: CliTextPath::new() }
    }

    /// Where the host is in its life.
    pub fn phase(&self) -> (r: Phase)
        ensures
            r == self@.phase,
    {
        self.phase
    }

    /// Publishes the file named on the command line, or that none was. A
    /// second publication is refused and changes nothing.
    pub fn publish_text_path(&mut self, text_file: Option<String>) -> (r: Result<(), PublishError>)
        requires
            old(self).wf(),
        ensures
            final(self).wf(),
            final(self)@ == next(old(self)@, HostEvent::Publish(opt_view(text_file))),
            r is Ok <==> old(self)@.text_path is None,
    {
        self.text_path.publish(text_file)
    }

    /// Enters the event loop, once the command line has been read.
    pub fn start(&mut self) -> (r: Result<(), StartError>)
        requires
            old(self).wf(),
        ensures
            final(self).wf(),
            final(self)@ == next(old(self)@, HostEvent::Start),
            r is Ok <==> old(self)@.phase is PreInit && old(self)@.text_path is Some,
            r matches Err(StartError::AlreadyStarted) <==> old(self)@.phase !is PreInit,
            r matches Err(StartError::NotPublished) <==> old(self)@.phase is PreInit
                && old(self)@.text_path is None,
    {
        match self.phase {
            Phase::PreInit => {
                if self.text_path.get().is_some() {
                    self.phase = Phase::Running;
                    Ok(())
                } else {
                    Err(StartError::NotPublished)
                }
            },
            _ => Err(StartError::AlreadyStarted),
        }
    }

    /// The path published from the command line; empty when no file was
    /// named.
    pub fn get_cli_text_path(&self) -> (r: String)
        requires
            self@.text_path is Some,
        ensures
            r@ == self@.text_path->0,
    {
        match self.text_path.get() {
            Some(p) => p,
            None => String::new(),
        }
    }

    /// Closes the window the command was called from.
    pub fn menu_file_exit(&self, window: &str) -> (r: Reply)
        ensures
            r@ == ReplyView::CloseWindow(window@),
    {
        Reply::CloseWindow(window.to_string())
    }

    /// The version dialog: over the main window, with the fixed title, and
    /// the package name and version, separated by one space, as its body.
    pub fn menu_help_about(&self, pkg_name: &str, pkg_version: &str) -> (r: Reply)
        ensures
            r@ == ReplyView::ShowAbout(about_dialog(pkg_name@, pkg_version@)),
    {
        let mut body = pkg_name.to_string();
        body.append(" ");
        body.append(pkg_version);
        Reply::ShowAbout(
            AboutDialog {
                parent: "main".to_string(),
                title: "バージョン情報".to_string(),
                body,
            },
        )
    }

    /// Answers the call of command `name` from window `window`. Unknown names
    /// are refused, and no command runs before the event loop or after the
    /// main window has closed.
    pub fn invoke(&self, name: &str, window: &str, pkg_name: &str, pkg_version: &str) -> (r: Result<
        Reply,
        DispatchError,
    >)
        requires
            self.wf(),
        ensures
            result_view(r) == invoke_result(self@, name@, window@, pkg_name@, pkg_version@),
            r matches Err(DispatchError::UnknownCommand) <==> !is_command_name(name@),
    {
        proof {
            lemma_command_names(name@, Command::GetCliTextPath);
        }
        match Command::from_name(name) {
            None => Err(DispatchError::UnknownCommand),
            Some(c) => {
                if self.phase != Phase::Running {
                    Err(DispatchError::NotRunning)
                } else {
                    match c {
                        Command::GetCliTextPath => Ok(Reply::TextPath(self.get_cli_text_path())),
                        Command::MenuFileExit => Ok(self.menu_file_exit(window)),
                        Command::MenuHelpAbout => Ok(self.menu_help_about(pkg_name, pkg_version)),
                    }
                }
            },
        }
    }

    /// The messages to send to the UI when menu item `id` is activated.
    pub fn menu_activated(&self, id: &str) -> (r: Vec<Broadcast>)
        ensures
            r@.len() == menu_broadcasts(self@, id@).len(),
            forall|k: int| 0 <= k < r@.len() ==> #[trigger] r@[k]@ == menu_broadcasts(self@, id@)[k],
    {
        let mut out: Vec<Broadcast> = Vec::new();
        if self.phase == Phase::Running {
            out.push(Broadcast { channel: "back-to-front".to_string(), payload: id.to_string() });
        }
        out
    }

    /// Records that window `label` closed. When the main window closes while
    /// the loop runs, the host terminates and the process exit status is
    /// returned.
    pub fn window_closed(&mut self, label: &str) -> (r: Option<i32>)
        requires
            old(self).wf(),
        ensures
            final(self).wf(),
            final(self)@ == next(old(self)@, HostEvent::WindowClosed(label@)),
            r matches Some(code) ==> exit_status(old(self)@, label@) == Some(code as int),
            r is None <==> exit_status(old(self)@, label@) is None,
    {
        if self.phase == Phase::Running && label.to_string() == "main".to_string() {
            self.phase = Phase::Terminating;
            Some(0)
        } else {
            None
        }
    }
}

/// The host once the command line was read and the loop started.
pub open spec fn launched(text_file: Option<Seq<char>>) -> HostView {
    run(initial_host(), seq![HostEvent::Publish(text_file), HostEvent::Start])
}

/// Once the host runs, the UI reads back exactly the file named on the
/// command line, and the empty string when none was named.
pub proof fn lemma_cli_path_capture(
    text_file: Option<Seq<char>>,
    window: Seq<char>,
    pkg_name: Seq<char>,
    pkg_version: Seq<char>,
)
    ensures
        launched(text_file).phase is Running,
        text_file matches Some(p) ==> invoke_result(
            launched(text_file),
            "get_cli_text_path"@,
            window,
            pkg_name,
            pkg_version,
        ) == Ok::<ReplyView, DispatchError>(ReplyView::TextPath(p)),
        text_file is None ==> invoke_result(
            launched(text_file),
            "get_cli_text_path"@,
            window,
            pkg_name,
            pkg_version,
        ) == Ok::<ReplyView, DispatchError>(ReplyView::TextPath(Seq::empty())),
{
    lemma_command_names("get_cli_text_path"@, Command::GetCliTextPath);
    let es = seq![HostEvent::Publish(text_file), HostEvent::Start];
    assert(es.drop_first().drop_first() =~= Seq::<HostEvent>::empty());
    assert(es.drop_first() =~= seq![HostEvent::Start]);
    reveal_with_fuel(run, 3);
}

/// Running the events of `a` and then those of `b` is running `a + b`.
pub proof fn lemma_run_append(v: HostView, a: Seq<HostEvent>, b: Seq<HostEvent>)
    ensures
        run(v, a + b) == run(run(v, a), b),
    decreases a.len(),
{
    if a.len() > 0 {
        assert((a + b).drop_first() =~= a.drop_first() + b);
        lemma_run_append(next(v, a[0]), a.drop_first(), b);
    } else {
        assert(a + b =~= b);
    }
}

/// No event changes a path once it has been published.
pub proof fn lemma_text_path_write_once(v: HostView, es: Seq<HostEvent>)
    requires
        v.text_path is Some,
    ensures
        run(v, es).text_path == v.text_path,
    decreases es.len(),
{
    if es.len() > 0 {
        lemma_text_path_write_once(next(v, es[0]), es.drop_first());
    }
}

/// No event leads a host to run without a published path.
pub proof fn lemma_wf_preserved(v: HostView, es: Seq<HostEvent>)
    requires
        host_wf(v),
    ensures
        host_wf(run(v, es)),
    decreases es.len(),
{
    if es.len() > 0 {
        lemma_wf_preserved(next(v, es[0]), es.drop_first());
    }
}

/// The path can be read only while the host runs, and every read while it
/// runs, after any events, gives the same value.
pub proof fn lemma_reads_agree(
    es: Seq<HostEvent>,
    i: int,
    j: int,
    window: Seq<char>,
    pkg_name: Seq<char>,
    pkg_version: Seq<char>,
)
    requires
        0 <= i <= j <= es.len(),
    ensures
        run(initial_host(), es.take(i)).phase !is Running ==> invoke_result(
            run(initial_host(), es.take(i)),
            "get_cli_text_path"@,
            window,
            pkg_name,
            pkg_version,
        ) == Err::<ReplyView, DispatchError>(DispatchError::NotRunning),
        run(initial_host(), es.take(i)).phase is Running && run(initial_host(), es.take(j)).phase is Running
            ==> invoke_result(
            run(initial_host(), es.take(i)),
            "get_cli_text_path"@,
            window,
            pkg_name,
            pkg_version,
        ) == invoke_result(
            run(initial_host(), es.take(j)),
            "get_cli_text_path"@,
            window,
            pkg_name,
            pkg_version,
        ),
{
    lemma_command_names("get_cli_text_path"@, Command::GetCliTextPath);
    let vi = run(initial_host(), es.take(i));
    lemma_wf_preserved(initial_host(), es.take(i));
    assert(es.take(j) =~= es.take(i) + es.subrange(i, j));
    lemma_run_append(initial_host(), es.take(i), es.subrange(i, j));
    if vi.phase is Running {
        lemma_text_path_write_once(vi, es.subrange(i, j));
    }
}

/// Activating menu item `id` while the host runs sends exactly one message,
/// on the event channel, whose payload is `id`; it changes no state.
pub proof fn lemma_menu_activation(v: HostView, id: Seq<char>)
    requires
        v.phase is Running,
    ensures
        menu_broadcasts(v, id).len() == 1,
        menu_broadcasts(v, id)[0] == (event_channel(), id),
        forall|k: int| 0 <= k < menu_broadcasts(v, id).len() ==> #[trigger] menu_broadcasts(v, id)[k].1 == id,
        next(v, HostEvent::MenuActivated(id)) == v,
{
}

/// A name outside the registered ones is refused, in every state, and the
/// call changes nothing.
pub proof fn lemma_unknown_command(
    v: HostView,
    name: Seq<char>,
    window: Seq<char>,
    pkg_name: Seq<char>,
    pkg_version: Seq<char>,
)
    requires
        !is_command_name(name),
    ensures
        invoke_result(v, name, window, pkg_name, pkg_version) == Err::<ReplyView, DispatchError>(
            DispatchError::UnknownCommand,
        ),
        next(v, HostEvent::Invoke { name, window }) == v,
{
    lemma_command_names(name, Command::GetCliTextPath);
}

/// The exit command from the main window closes it, and its closing ends the
/// loop with status 0.
pub proof fn lemma_exit_command_terminates(
    v: HostView,
    pkg_name: Seq<char>,
    pkg_version: Seq<char>,
)
    requires
        v.phase is Running,
    ensures
        invoke_result(v, "menu_file_exit"@, main_window(), pkg_name, pkg_version) == Ok::<
            ReplyView,
            DispatchError,
        >(ReplyView::CloseWindow(main_window())),
        exit_status(v, main_window()) == Some(0int),
        next(v, HostEvent::WindowClosed(main_window())).phase is Terminating,
{
    lemma_command_names("menu_file_exit"@, Command::MenuFileExit);
}

/// The version command, while the host runs, shows over the main window a
/// dialog titled with the fixed label, whose body is the package name, one
/// space and the package version.
pub proof fn lemma_about_content(
    v: HostView,
    window: Seq<char>,
    pkg_name: Seq<char>,
    pkg_version: Seq<char>,
)
    requires
        v.phase is Running,
    ensures
        invoke_result(v, "menu_help_about"@, window, pkg_name, pkg_version) matches Ok(
            ReplyView::ShowAbout(d),
        ) && d.parent == main_window() && d.title == "バージョン情報"@ && d.body == pkg_name
            + " "@ + pkg_version,
{
    lemma_command_names("menu_help_about"@, Command::MenuHelpAbout);
}

} // verus!
