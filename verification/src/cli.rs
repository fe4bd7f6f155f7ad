//! The command surface: the commands that a control program sends, and what
//! each of them does to the window manager and answers.

use crate::config::string_views;
use crate::model::WmView;
use crate::text::{decimal, owned, push_decimal};
use crate::types::{AppearanceConfig, Config, LayoutConfig, Rectangle, WindowState, WindowView};
use crate::window_manager::WindowManager;
use vstd::prelude::*;
use vstd::string::StringExecFns;

verus! {

/// The version that `get version` reports.
pub const VERSION: &'static str = "0.1.0";

/// The command line of the control program.
#[derive(Debug, Clone)]
pub struct Cli {
    pub command: Commands,
}

/// The commands. Tags are counted from one.
#[derive(Debug, Clone)]
pub enum Commands {
    /// Switch to a tag.
    Tag { number: usize },
    /// Move the focused window to a tag.
    MoveToTag { number: usize },
    /// Make the focused window floating, or tiled again.
    ToggleFloating,
    /// Close the focused window.
    Close,
    /// Start a program.
    Spawn { command: String, args: Vec<String> },
    /// Ask for a piece of the state.
    Get { what: GetCommands },
    /// Set a value of the configuration.
    SetValue { what: SetCommands },
    /// Read the configuration again.
    Reload,
    /// End the session.
    Exit,
}

/// What `get` can ask for.
#[derive(Debug, Clone, Copy, PartialEq, Eq, Structural)]
pub enum GetCommands {
    /// The current tag.
    Tag,
    /// The windows of the current tag.
    Windows,
    /// The focused window.
    Focused,
    /// The configuration.
    Config,
    /// The version.
    Version,
}

/// What `set` can set.
#[derive(Debug, Clone)]
pub enum SetCommands {
    /// The layout of the current tag, by its name in the configuration.
    Layout { layout: String },
    /// The gap along the edges of the screen.
    Gap { size: u32 },
    /// The width of the window borders.
    Border { width: u32 },
}

/// What is reported of a window.
#[derive(Debug, Clone)]
pub struct WindowInfo {
    pub id: u64,
    pub title: String,
    pub class: String,
    pub geometry: Rectangle,
    pub floating: bool,
    pub tag: usize,
}

/// What is reported of a tag.
#[derive(Debug, Clone)]
pub struct TagInfo {
    pub number: usize,
    pub name: String,
    pub active: bool,
    pub windows: Vec<WindowInfo>,
}

/// What is reported of the whole state.
#[derive(Debug, Clone)]
pub struct StateInfo {
    pub current_tag: usize,
    pub tags: Vec<TagInfo>,
    pub focused_window: Option<WindowInfo>,
}

/// The answer to a command that succeeded. What has to be written as JSON,
/// started or ended is left to the caller.
#[derive(Debug, Clone)]
pub enum CommandOutput {
    /// A line of text.
    Message(String),
    /// The windows of the current tag, to be written as JSON.
    Windows(Vec<WindowInfo>),
    /// The focused window, to be written as JSON.
    Focused(WindowInfo),
    /// The handler's configuration is to be written as JSON.
    Config,
    /// `command` is to be started with `args`, and `message` is the answer.
    Spawn { command: String, args: Vec<String>, message: String },
    /// The configuration is to be read again, and the text is the answer.
    Reload(String),
    /// The session is to end, and the text is the answer.
    Exit(String),
}

/// What a `WindowInfo` holds, as mathematical values.
pub struct WindowInfoView {
    pub id: u64,
    pub title: Seq<char>,
    pub class: Seq<char>,
    pub geometry: Rectangle,
    pub floating: bool,
    pub tag: usize,
}

impl View for WindowInfo {
    type V = WindowInfoView;

    open spec fn view(&self) -> WindowInfoView {
        WindowInfoView {
            id: self.id,
            title: self.title@,
            class: self.class@,
            geometry: self.geometry,
            floating: self.floating,
            tag: self.tag,
        }
    }
}

/// What a `CommandOutput` holds, as mathematical values.
pub enum OutputView {
    Message(Seq<char>),
    Windows(Seq<WindowInfoView>),
    Focused(WindowInfoView),
    Config,
    Spawn { command: Seq<char>, args: Seq<Seq<char>>, message: Seq<char> },
    Reload(Seq<char>),
    Exit(Seq<char>),
}

/// The views of a list of window reports.
pub open spec fn info_views(list: Seq<WindowInfo>) -> Seq<WindowInfoView> {
    Seq::new(list.len(), |i: int| list[i]@)
}

impl View for CommandOutput {
    type V = OutputView;

    open spec fn view(&self) -> OutputView {
        match self {
            CommandOutput::Message(text) => OutputView::Message(text@),
            CommandOutput::Windows(list) => OutputView::Windows(info_views(list@)),
            CommandOutput::Focused(info) => OutputView::Focused(info@),
            CommandOutput::Config => OutputView::Config,
            CommandOutput::Spawn { command, args, message } => OutputView::Spawn {
                command: command@,
                args: string_views(args@),
                message: message@,
            },
            CommandOutput::Reload(text) => OutputView::Reload(text@),
            CommandOutput::Exit(text) => OutputView::Exit(text@),
        }
    }
}

/// The answer to a command with its texts as characters.
pub open spec fn reply_view(reply: Result<CommandOutput, String>) -> Result<OutputView, Seq<char>> {
    match reply {
        Ok(output) => Ok(output@),
        Err(text) => Err(text@),
    }
}

/// What is reported of a window that is shown as standing on the tag with
/// the number `tag`.
pub open spec fn report_of(record: WindowView, tag: usize) -> WindowInfoView {
    WindowInfoView {
        id: record.id.0,
        title: record.title,
        class: record.class,
        geometry: record.geometry,
        floating: record.floating,
        tag,
    }
}

/// The first `upto` of the words, with one space between neighbours.
pub open spec fn joined(words: Seq<Seq<char>>, upto: int) -> Seq<char>
    decreases upto,
{
    if upto <= 0 {
        Seq::empty()
    } else if upto == 1 {
        words[0]
    } else {
        joined(words, upto - 1) + " "@ + words[upto - 1]
    }
}

/// Joins words with one space between neighbours.
pub fn join_words(words: &Vec<String>) -> (line: String)
    ensures
        line@ == joined(string_views(words@), words.len() as int),
{
    let mut line = String::new();
    let mut i: usize = 0;
    while i < words.len()
        invariant
            i <= words.len(),
            line@ == joined(string_views(words@), i as int),
        decreases words.len() - i,
    {
        let ghost before = line@;
        if i > 0 {
            line.append(" ");
        }
        line.append(words[i].as_str());
        assert(string_views(words@)[i as int] == words[i as int]@);
        assert(line@ =~= joined(string_views(words@), i as int + 1));
        i += 1;
    }
    line
}

fn numbered(prefix: &str, number: u64) -> (text: String)
    ensures
        text@ == prefix@ + decimal(number as nat),
{
    let mut text = owned(prefix);
    push_decimal(&mut text, number);
    text
}

fn report(record: &WindowState, tag: usize) -> (info: WindowInfo)
    ensures
        info@ == report_of(record@, tag),
{
    WindowInfo {
        id: record.id.0,
        title: record.title.clone(),
        class: record.class.clone(),
        geometry: record.geometry,
        floating: record.floating,
        tag,
    }
}

/// Carries out the commands of the control program.
pub struct CliHandler {
    pub config: Config,
}

impl CliHandler {
    pub fn new(config: Config) -> (handler: Self)
        ensures
            handler.config == config,
    {
        CliHandler { config }
    }

    /// The state after a command.
    ///
    /// `tag` switches to a tag and `move-to-tag` moves the focused window
    /// there, where the number names a tag; `toggle-floating` and `close`
    /// act on the focused window, `close` by dropping it; `set layout` gives
    /// the current tag a layout of the handler's configuration, brought into
    /// its ranges where it is outside; `set gap` arranges every tag around
    /// the new gap. Every other command, and every command that fails, leaves the
    /// state as it is.
    pub open spec fn state_after(&self, wm: &WindowManager, command: Commands) -> WmView {
        let state = wm@;
        match command {
            Commands::Tag { number } => if 1 <= number <= state.tags.len() {
                state.switch_tag(number - 1)
            } else {
                state
            },
            Commands::MoveToTag { number } => match state.focused() {
                Some(id) => if 1 <= number <= state.tags.len() {
                    state.move_to_tag(id, number - 1)
                } else {
                    state
                },
                None => state,
            },
            Commands::ToggleFloating => match state.focused() {
                Some(id) => state.toggle_floating(id),
                None => state,
            },
            Commands::Close => match state.focused() {
                Some(id) => state.unmanage(id),
                None => state,
            },
            Commands::SetValue { what: SetCommands::Layout { layout } } => if self.config.layouts@.contains_key(
                layout@,
            ) {
                state.change_layout(
                    state.current(),
                    self.config.layouts@[layout@].nearest_in_range(),
                )
            } else {
                state
            },
            Commands::SetValue { what: SetCommands::Gap { size } } => (WmView {
                area: crate::layouts::usable_area(
                    wm.screen_geometry,
                    wm.config.appearance.bar_height,
                    size,
                ),
                ..state
            }).relayout_tags(state.tags.len() as int),
            _ => state,
        }
    }

    /// The answer to a command.
    pub open spec fn answer(&self, wm: &WindowManager, command: Commands) -> Result<
        OutputView,
        Seq<char>,
    > {
        let state = wm@;
        match command {
            Commands::Tag { number } => if 1 <= number <= state.tags.len() {
                Ok(OutputView::Message("Switched to tag "@ + decimal(number as nat)))
            } else {
                Err("Invalid tag number: "@ + decimal(number as nat))
            },
            Commands::MoveToTag { number } => if 1 <= number <= state.tags.len() {
                match state.focused() {
                    Some(_id) => Ok(
                        OutputView::Message("Moved window to tag "@ + decimal(number as nat)),
                    ),
                    None => Err("No focused window"@),
                }
            } else {
                Err("Invalid tag number: "@ + decimal(number as nat))
            },
            Commands::ToggleFloating => match state.focused() {
                Some(_id) => Ok(OutputView::Message("Toggled floating mode"@)),
                None => Err("No focused window"@),
            },
            Commands::Close => match state.focused() {
                Some(_id) => Ok(OutputView::Message("Closed window"@)),
                None => Err("No focused window"@),
            },
            Commands::Spawn { command, args } => Ok(
                OutputView::Spawn {
                    command: command@,
                    args: string_views(args@),
                    message: "Spawned: "@ + command@ + " "@ + joined(
                        string_views(args@),
                        args.len() as int,
                    ),
                },
            ),
            Commands::Get { what } => match what {
                GetCommands::Tag => Ok(
                    OutputView::Message("Current tag: "@ + decimal((state.current() + 1) as nat)),
                ),
                GetCommands::Windows => Ok(
                    OutputView::Windows(
                        Seq::new(
                            state.tags[state.current()].windows.len(),
                            |i: int|
                                report_of(
                                    state.windows[state.tags[state.current()].windows[i]],
                                    (state.current() + 1) as usize,
                                ),
                        ),
                    ),
                ),
                GetCommands::Focused => match state.focused() {
                    Some(id) => Ok(
                        OutputView::Focused(
                            report_of(state.windows[id], (state.current() + 1) as usize),
                        ),
                    ),
                    None => Err("No focused window"@),
                },
                GetCommands::Config => Ok(OutputView::Config),
                GetCommands::Version => Ok(OutputView::Message(VERSION@)),
            },
            Commands::SetValue { what } => match what {
                SetCommands::Layout { layout } => if self.config.layouts@.contains_key(layout@) {
                    Ok(OutputView::Message("Set layout to "@ + layout@))
                } else {
                    Err("Unknown layout: "@ + layout@)
                },
                SetCommands::Gap { size } => Ok(
                    OutputView::Message("Set gap size to "@ + decimal(size as nat)),
                ),
                SetCommands::Border { width } => Ok(
                    OutputView::Message("Set border width to "@ + decimal(width as nat)),
                ),
            },
            Commands::Reload => Ok(OutputView::Reload("Configuration reloaded"@)),
            Commands::Exit => Ok(OutputView::Exit("Exiting instantWM"@)),
        }
    }

    /// The settings of the window manager after a command: `set gap` and
    /// `set border` change the value that they name, every other command
    /// leaves the settings as they are.
    pub open spec fn settings_after(wm: &WindowManager, command: Commands) -> Config {
        match command {
            Commands::SetValue { what: SetCommands::Gap { size } } => Config {
                appearance: AppearanceConfig { gap_size: size, ..wm.config.appearance },
                ..wm.config
            },
            Commands::SetValue { what: SetCommands::Border { width } } => Config {
                appearance: AppearanceConfig { border_width: width, ..wm.config.appearance },
                ..wm.config
            },
            _ => wm.config,
        }
    }

    fn windows_report(wm: &WindowManager) -> (list: Vec<WindowInfo>)
        requires
            wm.wf(),
        ensures
            info_views(list@) == Seq::new(
                wm@.tags[wm@.current()].windows.len(),
                |i: int|
                    report_of(
                        wm@.windows[wm@.tags[wm@.current()].windows[i]],
                        (wm@.current() + 1) as usize,
                    ),
            ),
    {
        let number: usize = wm.current_tag.0 as usize + 1;
        let windows = wm.get_windows_for_current_tag();
        let mut list: Vec<WindowInfo> = Vec::new();
        let mut i: usize = 0;
        while i < windows.len()
            invariant
                i <= windows.len(),
                wm.wf(),
                number == wm@.current() + 1,
                windows@ == wm@.tags[wm@.current()].windows,
                list.len() == i,
                forall|j: int|
                    0 <= j < i ==> (#[trigger] list[j])@ == report_of(
                        wm@.windows[windows[j]],
                        number,
                    ),
            decreases windows.len() - i,
        {
            assert(wm@.windows.contains_key(wm@.tags[wm@.current()].windows[i as int]));
            match wm.get_window(windows[i]) {
                Some(record) => {
                    list.push(report(record, number));
                },
                None => {},
            }
            i += 1;
        }
        assert(info_views(list@) =~= Seq::new(
            wm@.tags[wm@.current()].windows.len(),
            |i: int|
                report_of(
                    wm@.windows[wm@.tags[wm@.current()].windows[i]],
                    (wm@.current() + 1) as usize,
                ),
        ));
        list
    }

    /// Carries out a command and answers it: with `Ok` and what the command
    /// produced, or with `Err` and a line that says why it was refused. A
    /// refused command changes nothing.
    pub fn handle_command(&self, wm: &mut WindowManager, command: Commands) -> (reply: Result<
        CommandOutput,
        String,
    >)
        requires
            old(wm).wf(),
        ensures
            final(wm).wf(),
            final(wm).screen_geometry == old(wm).screen_geometry,
            final(wm).same_bookkeeping(old(wm)),
            final(wm).config == Self::settings_after(old(wm), command),
            final(wm)@ == self.state_after(old(wm), command),
            reply_view(reply) == self.answer(old(wm), command),
    {
        match command {
            Commands::Tag { number } => {
                if number > 0 && number <= wm.tags.len() {
                    let _ = wm.switch_to_tag((number - 1) as u32);
                    proof {
                        assert(wm@.tags =~= old(wm)@.tags);
                    }
                    Ok(CommandOutput::Message(numbered("Switched to tag ", number as u64)))
                } else {
                    Err(numbered("Invalid tag number: ", number as u64))
                }
            },
            Commands::MoveToTag { number } => {
                if number > 0 && number <= wm.tags.len() {
                    match wm.get_focused_window() {
                        Some(focused) => {
                            proof {
                                old(wm)@.lemma_focused_window_is_managed();
                            }
                            let _ = wm.move_window_to_tag(focused, (number - 1) as u32);
                            Ok(
                                CommandOutput::Message(
                                    numbered("Moved window to tag ", number as u64),
                                ),
                            )
                        },
                        None => Err(owned("No focused window")),
                    }
                } else {
                    Err(numbered("Invalid tag number: ", number as u64))
                }
            },
            Commands::ToggleFloating => match wm.get_focused_window() {
                Some(focused) => {
                    proof {
                        old(wm)@.lemma_focused_window_is_managed();
                    }
                    let _ = wm.toggle_floating(focused);
                    Ok(CommandOutput::Message(owned("Toggled floating mode")))
                },
                None => Err(owned("No focused window")),
            },
            Commands::Close => match wm.get_focused_window() {
                Some(focused) => {
                    wm.unmanage_window(focused);
                    Ok(CommandOutput::Message(owned("Closed window")))
                },
                None => Err(owned("No focused window")),
            },
            Commands::Spawn { command, args } => {
                let mut message = owned("Spawned: ");
                message.append(command.as_str());
                message.append(" ");
                let list = join_words(&args);
                message.append(list.as_str());
                assert(message@ =~= "Spawned: "@ + command@ + " "@ + joined(
                    string_views(args@),
                    args.len() as int,
                ));
                Ok(CommandOutput::Spawn { command, args, message })
            },
            Commands::Get { what } => match what {
                GetCommands::Tag => Ok(
                    CommandOutput::Message(
                        numbered("Current tag: ", wm.current_tag.0 as u64 + 1),
                    ),
                ),
                GetCommands::Windows => Ok(CommandOutput::Windows(Self::windows_report(wm))),
                GetCommands::Focused => match wm.get_focused_window() {
                    Some(focused) => {
                        proof {
                            old(wm)@.lemma_focused_window_is_managed();
                        }
                        match wm.get_window(focused) {
                            Some(record) => Ok(
                                CommandOutput::Focused(
                                    report(record, wm.current_tag.0 as usize + 1),
                                ),
                            ),
                            None => Err(owned("No window info")),
                        }
                    },
                    None => Err(owned("No focused window")),
                },
                GetCommands::Config => Ok(CommandOutput::Config),
                GetCommands::Version => Ok(CommandOutput::Message(owned(VERSION))),
            },
            Commands::SetValue { what } => match what {
                SetCommands::Layout { layout } => {
                    let found = match self.config.layouts.get(layout.as_str()) {
                        Some(found) => *found,
                        None => {
                            return Err(owned("Unknown layout: ").concat(layout.as_str()));
                        },
                    };
                    let current = wm.current_tag;
                    let _ = wm.set_tag_layout(current, found);
                    Ok(CommandOutput::Message(owned("Set layout to ").concat(layout.as_str())))
                },
                SetCommands::Gap { size } => {
                    wm.set_gap(size);
                    Ok(CommandOutput::Message(numbered("Set gap size to ", size as u64)))
                },
                SetCommands::Border { width } => {
                    wm.set_border_width(width);
                    Ok(CommandOutput::Message(numbered("Set border width to ", width as u64)))
                },
            },
            Commands::Reload => Ok(CommandOutput::Reload(owned("Configuration reloaded"))),
            Commands::Exit => Ok(CommandOutput::Exit(owned("Exiting instantWM"))),
        }
    }
}

} // verus!
