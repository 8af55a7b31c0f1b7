use vstd::prelude::*;
use vstd::string::StrSliceExecFns;
use vstd::string::StringExecFns;

use crate::error::IoErrorKind;
use crate::error::MarkdownPreviewError;
use crate::launch::LaunchAction;
use crate::launch::Platform;
use crate::launch::PollEvent;
use crate::launch::ViewerCommand;
use crate::launch::launch_step;
use crate::launch::spec_launch_step;
use crate::launch::viewer_command;
use crate::render::contains_seq;
use crate::render::doc_epilogue;
use crate::render::doc_head;
use crate::render::document_of;
use crate::render::html_of;
use crate::render::lemma_body_inserted_verbatim;
use crate::render::lemma_digram_absent;
use crate::render::lemma_head_has_no_stylesheet_link;
use crate::render::lemma_head_has_one_stylesheet_link;
use crate::render::lemma_template_adds_no_script;
use crate::render::link_open;
use crate::render::link_pos;
use crate::render::markdown_to_html;
use crate::render::occurs_at;
use crate::render::opt_str_view;
use crate::render::render_page;
use crate::render::sanitize_html;
use crate::render::sanitized_of;
use crate::render::script_open;
use crate::render::stylesheet_link_tag;

verus! {

// ---------------------------------------------------------------------------
// Paths: separators, file names, joining.
// ---------------------------------------------------------------------------

/// Whether a character separates path components.
pub open spec fn is_path_sep(c: char) -> bool {
    c == '/' || c == '\\'
}

/// The final component of a path: everything after the last separator, or
/// the whole path when it holds no separator.  A path that ends with a
/// separator has an empty file name.
pub open spec fn spec_file_name(p: Seq<char>) -> Seq<char>
    decreases p.len(),
{
    if p.len() == 0 {
        p
    } else if is_path_sep(p.last()) {
        Seq::empty()
    } else {
        spec_file_name(p.drop_last()).push(p.last())
    }
}

proof fn lemma_file_name_suffix(p: Seq<char>, i: int)
    requires
        0 <= i <= p.len(),
        i > 0 ==> is_path_sep(p[i - 1]),
        forall|j: int| i <= j < p.len() ==> !is_path_sep(p[j]),
    ensures
        spec_file_name(p) == p.subrange(i, p.len() as int),
    decreases p.len() - i,
{
    if i == p.len() {
        if p.len() == 0 {
            assert(spec_file_name(p) =~= p.subrange(i, p.len() as int));
        } else {
            assert(is_path_sep(p.last()));
            assert(spec_file_name(p) =~= p.subrange(i, p.len() as int));
        }
    } else {
        assert(!is_path_sep(p.last()));
        let q = p.drop_last();
        lemma_file_name_suffix(q, i);
        assert(q.subrange(i, q.len() as int) =~= p.subrange(i, p.len() as int - 1));
        assert(spec_file_name(p) == spec_file_name(q).push(p.last()));
        assert(p.subrange(i, p.len() as int - 1).push(p.last()) =~= p.subrange(
            i,
            p.len() as int,
        ));
    }
}

/// Extract the file name of a path: the component after the last `/` or `\`.
pub fn file_name_of(path: &str) -> (r: String)
    ensures
        r@ == spec_file_name(path@),
{
    let n = path.unicode_len();
    let mut i: usize = 0;
    let mut start: usize = 0;
    while i < n
        invariant
            0 <= start <= i <= n,
            n == path@.len(),
            start > 0 ==> is_path_sep(path@[start - 1]),
            forall|j: int| start <= j < i ==> !is_path_sep(path@[j]),
        decreases n - i,
    {
        let c = path.get_char(i);
        if c == '/' || c == '\\' {
            start = i + 1;
        }
        i = i + 1;
    }
    let name = path.substring_char(start, n);
    proof {
        lemma_file_name_suffix(path@, start as int);
    }
    String::from_str(name)
}

/// The separator that the platform's paths use.
pub open spec fn spec_sep(platform: Platform) -> Seq<char> {
    if platform == Platform::Windows {
        "\\"@
    } else {
        "/"@
    }
}

/// A directory path joined with a file name by the platform's separator.
pub open spec fn spec_join(platform: Platform, dir: Seq<char>, name: Seq<char>) -> Seq<char> {
    dir + spec_sep(platform) + name
}

/// Join a directory path and a file name with the platform's separator.
pub fn join_path(platform: Platform, dir: &str, name: &str) -> (r: String)
    ensures
        r@ == spec_join(platform, dir@, name@),
{
    let mut out = String::from_str(dir);
    match platform {
        Platform::Windows => out.append("\\"),
        _ => out.append("/"),
    }
    out.append(name);
    proof {
        assert(out@ =~= spec_join(platform, dir@, name@));
    }
    out
}

/// The fixed name of the rendered page inside the temporary workspace.
pub open spec fn temp_file_name() -> Seq<char> {
    "temp.html"@
}

fn temp_file_name_str() -> (r: &'static str)
    ensures
        r@ == temp_file_name(),
{
    "temp.html"
}

// ---------------------------------------------------------------------------
// The tool and its options.
// ---------------------------------------------------------------------------

/// The title that every rendered page carries.
pub open spec fn default_title() -> Seq<char> {
    "Markdown Preview Tool"@
}

fn default_title_str() -> (r: &'static str)
    ensures
        r@ == default_title(),
{
    "Markdown Preview Tool"
}

/// One run's inputs: the Markdown file to preview, an optional stylesheet to
/// apply, and the platform the run happens on.
pub struct Options {
    pub markdown_file: String,
    pub css_file: Option<String>,
    pub platform: Platform,
}

/// The preview tool: one value per run, holding that run's options.
pub struct MarkdownPreviewTool {
    pub opt: Options,
}

/// The relative stylesheet name that the rendered page links, if any: the
/// file name of the configured stylesheet path.
pub open spec fn spec_css_name(opt: Options) -> Option<Seq<char>> {
    match opt.css_file {
        Some(p) => Some(spec_file_name(p@)),
        None => None,
    }
}

/// The page that one run renders for a given Markdown text: the parsed and
/// sanitized fragment substituted into the fixed template together with the
/// title and the stylesheet's relative name.
pub open spec fn spec_rendered_page(opt: Options, markdown: Seq<char>) -> Seq<char> {
    document_of(default_title(), sanitized_of(html_of(markdown)), spec_css_name(opt))
}

impl MarkdownPreviewTool {
    /// Make a tool for one run from its options.
    pub fn new(opt: Options) -> (r: Self)
        ensures
            r.opt == opt,
    {
        Self { opt }
    }

    /// Render one Markdown text to a complete page: parse it to an HTML
    /// fragment, sanitize the fragment, and substitute it into the fixed
    /// template.  Rendering succeeds on every input, and the result is a
    /// function of the input text and the options alone.
    pub fn parse_content(&self, input: &str) -> (r: Result<String, MarkdownPreviewError>)
        ensures
            r is Ok,
            r matches Ok(page) ==> page@ == spec_rendered_page(self.opt, input@),
    {
        let unsafe_html = markdown_to_html(input);
        let body = sanitize_html(unsafe_html.as_str());
        let css_name: Option<String> = match &self.opt.css_file {
            Some(p) => Some(file_name_of(p.as_str())),
            None => None,
        };
        proof {
            assert(opt_str_view(css_name) == spec_css_name(self.opt));
        }
        Ok(render_page(default_title_str(), body.as_str(), &css_name))
    }
}

// ---------------------------------------------------------------------------
// One run as a state machine.
//
// The library makes every decision of a run; the surrounding program only
// performs the actions it is handed (reading, writing, spawning, sleeping,
// killing) and feeds each outcome back as the next event.
// ---------------------------------------------------------------------------

/// Where a run stands between two actions.
pub enum RunState {
    /// Waiting for the Markdown input file to be read.
    ReadingInput,
    /// The page is rendered; waiting for the temporary workspace.
    CreatingWorkspace { document: String },
    /// Waiting for the page to be written into the workspace.
    SavingDocument { html_path: String, workspace_dir: String },
    /// Waiting for the stylesheet to be copied beside the page.
    CopyingStylesheet { html_path: String },
    /// Waiting for the viewer process to be spawned.
    Spawning,
    /// Waiting for the next poll of the viewer process.
    Polling,
    /// The run is over, with this result.
    Finished { result: Result<(), MarkdownPreviewError> },
}

/// The outcome of the last action, reported back to the state machine.
pub enum RunEvent {
    /// The input file was read, or reading it failed.
    InputRead { result: Result<String, IoErrorKind> },
    /// The temporary workspace was created at this path, or creating it failed.
    WorkspaceCreated { result: Result<String, IoErrorKind> },
    /// The page was written, or writing it failed.
    DocumentSaved { result: Result<(), IoErrorKind> },
    /// The stylesheet was copied, or copying it failed.
    StylesheetCopied { result: Result<(), IoErrorKind> },
    /// The viewer process was spawned, or spawning it failed.
    SpawnFinished { result: Result<(), IoErrorKind> },
    /// The viewer process was polled this long after it was spawned.
    Polled { elapsed_ms: u64, event: PollEvent },
}

/// What the surrounding program is asked to do next.
pub enum RunAction {
    /// Read the file at this path as UTF-8 text.
    ReadInput { path: String },
    /// Create a fresh, uniquely named temporary directory.
    CreateWorkspace,
    /// Write these contents to this path.
    SaveDocument { path: String, contents: String },
    /// Copy the file at `source` to `destination`.
    CopyStylesheet { source: String, destination: String },
    /// Spawn this command, detached from the tool's own control flow.
    SpawnViewer { command: ViewerCommand },
    /// Poll the spawned process now.
    PollViewer,
    /// Pause for `POLL_INTERVAL_MS`, then poll the spawned process.
    SleepThenPoll,
    /// Kill the spawned process, then report the result in `Finished`.
    KillViewer,
    /// Report the result in `Finished`.
    Report,
}

/// Whether an event answers the action that the state is waiting on.
pub open spec fn run_accepts(state: RunState, event: RunEvent) -> bool {
    match (state, event) {
        (RunState::ReadingInput, RunEvent::InputRead { .. }) => true,
        (RunState::CreatingWorkspace { .. }, RunEvent::WorkspaceCreated { .. }) => true,
        (RunState::SavingDocument { .. }, RunEvent::DocumentSaved { .. }) => true,
        (RunState::CopyingStylesheet { .. }, RunEvent::StylesheetCopied { .. }) => true,
        (RunState::Spawning, RunEvent::SpawnFinished { .. }) => true,
        (RunState::Polling, RunEvent::Polled { .. }) => true,
        _ => false,
    }
}

/// The step into the launch phase, shared by the two states that can reach
/// it: on the one supported platform the viewer command for the saved page is
/// spawned; on every other platform the run finishes with
/// `UnsupportedPlatform` and no spawn is ever requested.
pub open spec fn spawn_transition(opt: Options, html_path: Seq<char>, r: (RunState, RunAction)) -> bool {
    if opt.platform == Platform::Windows {
        &&& r.0 is Spawning
        &&& r.1 matches RunAction::SpawnViewer { command }
        &&& command.program@ == "cmd.exe"@
        &&& command.args@.len() == 4
        &&& command.args@[0]@ == "/C"@
        &&& command.args@[1]@ == "start"@
        &&& command.args@[2]@ == "chrome"@
        &&& command.args@[3]@ == html_path
    } else {
        &&& r.0 == (RunState::Finished {
            result: Err::<(), MarkdownPreviewError>(MarkdownPreviewError::UnsupportedPlatform),
        })
        &&& r.1 is Report
    }
}

/// The step out of the polling phase, following the launcher's decision for
/// the poll outcome.
pub open spec fn poll_transition(decision: LaunchAction, r: (RunState, RunAction)) -> bool {
    match decision {
        LaunchAction::Succeed => r.0 == (RunState::Finished {
            result: Ok::<(), MarkdownPreviewError>(()),
        }) && r.1 is Report,
        LaunchAction::Fail { error } => r.0 == (RunState::Finished {
            result: Err::<(), MarkdownPreviewError>(error),
        }) && r.1 is Report,
        LaunchAction::SleepThenPoll => r.0 is Polling && r.1 is SleepThenPoll,
        LaunchAction::KillThenFail { error } => r.0 == (RunState::Finished {
            result: Err::<(), MarkdownPreviewError>(error),
        }) && r.1 is KillViewer,
    }
}

/// The finish of a run with this error, and the request to report it.
pub open spec fn fail_transition(error: MarkdownPreviewError, r: (RunState, RunAction)) -> bool {
    &&& r.0 == (RunState::Finished { result: Err::<(), MarkdownPreviewError>(error) })
    &&& r.1 is Report
}

/// The whole step relation of a run: what the next state and action are for
/// every state and every outcome of its pending action.  Each failure
/// finishes the run at once with the corresponding error; no stage retries.
pub open spec fn spec_run_step(
    opt: Options,
    state: RunState,
    event: RunEvent,
    r: (RunState, RunAction),
) -> bool {
    match (state, event) {
        (RunState::ReadingInput, RunEvent::InputRead { result }) => match result {
            Ok(markdown) => {
                &&& r.0 matches RunState::CreatingWorkspace { document }
                &&& document@ == spec_rendered_page(opt, markdown@)
                &&& r.1 is CreateWorkspace
            },
            Err(kind) => fail_transition(MarkdownPreviewError::IoError(kind), r),
        },
        (
            RunState::CreatingWorkspace { document },
            RunEvent::WorkspaceCreated { result },
        ) => match result {
            Ok(dir) => {
                &&& r.0 matches RunState::SavingDocument { html_path, workspace_dir }
                &&& html_path@ == spec_join(opt.platform, dir@, temp_file_name())
                &&& workspace_dir@ == dir@
                &&& r.1 matches RunAction::SaveDocument { path, contents }
                &&& path@ == spec_join(opt.platform, dir@, temp_file_name())
                &&& contents@ == document@
            },
            Err(kind) => fail_transition(MarkdownPreviewError::IoError(kind), r),
        },
        (
            RunState::SavingDocument { html_path, workspace_dir },
            RunEvent::DocumentSaved { result },
        ) => match result {
            Ok(_) => match opt.css_file {
                Some(css) => {
                    &&& r.0 matches RunState::CopyingStylesheet { html_path: kept }
                    &&& kept@ == html_path@
                    &&& r.1 matches RunAction::CopyStylesheet { source, destination }
                    &&& source@ == css@
                    &&& destination@ == spec_join(
                        opt.platform,
                        workspace_dir@,
                        spec_file_name(css@),
                    )
                },
                None => spawn_transition(opt, html_path@, r),
            },
            Err(kind) => fail_transition(MarkdownPreviewError::IoError(kind), r),
        },
        (
            RunState::CopyingStylesheet { html_path },
            RunEvent::StylesheetCopied { result },
        ) => match result {
            Ok(_) => spawn_transition(opt, html_path@, r),
            Err(kind) => fail_transition(MarkdownPreviewError::IoError(kind), r),
        },
        (RunState::Spawning, RunEvent::SpawnFinished { result }) => match result {
            Ok(_) => r.0 is Polling && r.1 is PollViewer,
            Err(kind) => fail_transition(MarkdownPreviewError::IoError(kind), r),
        },
        (RunState::Polling, RunEvent::Polled { elapsed_ms, event: poll }) => poll_transition(
            spec_launch_step(elapsed_ms, poll),
            r,
        ),
        _ => true,
    }
}

impl MarkdownPreviewTool {
    /// Begin a run: ask for the Markdown input file to be read.
    pub fn start(&self) -> (r: (RunState, RunAction))
        ensures
            r.0 is ReadingInput,
            r.1 matches RunAction::ReadInput { path } && path@ == self.opt.markdown_file@,
    {
        (
            RunState::ReadingInput,
            RunAction::ReadInput { path: self.opt.markdown_file.clone() },
        )
    }

    /// Advance a run by one step: given where the run stands and what the
    /// last action reported, decide the next state and the next action.
    /// The step follows `spec_run_step` exactly; in addition, a viewer spawn
    /// is only ever requested on the one supported platform, and a workspace
    /// is only ever requested once the input file was read successfully.
    pub fn run_step(&self, state: RunState, event: RunEvent) -> (r: (RunState, RunAction))
        requires
            run_accepts(state, event),
        ensures
            spec_run_step(self.opt, state, event, r),
            r.1 matches RunAction::SpawnViewer { .. } ==> self.opt.platform == Platform::Windows,
            r.1 is CreateWorkspace ==> state is ReadingInput && event matches RunEvent::InputRead {
                result: Ok(_),
            },
    {
        match (state, event) {
            (RunState::ReadingInput, RunEvent::InputRead { result }) => {
                match result {
                    Ok(markdown) => {
                        let document = match self.parse_content(markdown.as_str()) {
                            Ok(page) => page,
                            Err(_) => vstd::pervasive::unreached(),
                        };
                        (
                            RunState::CreatingWorkspace { document },
                            RunAction::CreateWorkspace,
                        )
                    },
                    Err(kind) => (
                        RunState::Finished {
                            result: Err(MarkdownPreviewError::IoError(kind)),
                        },
                        RunAction::Report,
                    ),
                }
            },
            (RunState::CreatingWorkspace { document }, RunEvent::WorkspaceCreated { result }) => {
                match result {
                    Ok(dir) => {
                        let html_path = join_path(
                            self.opt.platform,
                            dir.as_str(),
                            temp_file_name_str(),
                        );
                        (
                            RunState::SavingDocument {
                                html_path: html_path.clone(),
                                workspace_dir: dir,
                            },
                            RunAction::SaveDocument { path: html_path, contents: document },
                        )
                    },
                    Err(kind) => (
                        RunState::Finished {
                            result: Err(MarkdownPreviewError::IoError(kind)),
                        },
                        RunAction::Report,
                    ),
                }
            },
            (
                RunState::SavingDocument { html_path, workspace_dir },
                RunEvent::DocumentSaved { result },
            ) => {
                match result {
                    Ok(_) => {
                        match &self.opt.css_file {
                            Some(css) => {
                                let name = file_name_of(css.as_str());
                                let destination = join_path(
                                    self.opt.platform,
                                    workspace_dir.as_str(),
                                    name.as_str(),
                                );
                                (
                                    RunState::CopyingStylesheet { html_path },
                                    RunAction::CopyStylesheet {
                                        source: css.clone(),
                                        destination,
                                    },
                                )
                            },
                            None => self.spawn_step(html_path),
                        }
                    },
                    Err(kind) => (
                        RunState::Finished {
                            result: Err(MarkdownPreviewError::IoError(kind)),
                        },
                        RunAction::Report,
                    ),
                }
            },
            (RunState::CopyingStylesheet { html_path }, RunEvent::StylesheetCopied { result }) => {
                match result {
                    Ok(_) => self.spawn_step(html_path),
                    Err(kind) => (
                        RunState::Finished {
                            result: Err(MarkdownPreviewError::IoError(kind)),
                        },
                        RunAction::Report,
                    ),
                }
            },
            (RunState::Spawning, RunEvent::SpawnFinished { result }) => {
                match result {
                    Ok(_) => (RunState::Polling, RunAction::PollViewer),
                    Err(kind) => (
                        RunState::Finished {
                            result: Err(MarkdownPreviewError::IoError(kind)),
                        },
                        RunAction::Report,
                    ),
                }
            },
            (RunState::Polling, RunEvent::Polled { elapsed_ms, event: poll }) => {
                match launch_step(elapsed_ms, &poll) {
                    LaunchAction::Succeed => (
                        RunState::Finished { result: Ok(()) },
                        RunAction::Report,
                    ),
                    LaunchAction::Fail { error } => (
                        RunState::Finished { result: Err(error) },
                        RunAction::Report,
                    ),
                    LaunchAction::SleepThenPoll => (RunState::Polling, RunAction::SleepThenPoll),
                    LaunchAction::KillThenFail { error } => (
                        RunState::Finished { result: Err(error) },
                        RunAction::KillViewer,
                    ),
                }
            },
            _ => vstd::pervasive::unreached(),
        }
    }

    /// Move from a saved page to the launch phase: spawn on the supported
    /// platform, finish with `UnsupportedPlatform` anywhere else.
    fn spawn_step(&self, html_path: String) -> (r: (RunState, RunAction))
        ensures
            spawn_transition(self.opt, html_path@, r),
            r.1 matches RunAction::SpawnViewer { .. } ==> self.opt.platform == Platform::Windows,
            !(r.1 is CreateWorkspace),
    {
        match viewer_command(self.opt.platform, html_path.as_str()) {
            Ok(command) => (RunState::Spawning, RunAction::SpawnViewer { command }),
            Err(error) => (
                RunState::Finished { result: Err(error) },
                RunAction::Report,
            ),
        }
    }
}

// ---------------------------------------------------------------------------
// What holds of every rendered page.
// ---------------------------------------------------------------------------

/// Rendering is deterministic: the page is a function of the options and the
/// input text alone, so rendering the same text with the same options twice
/// yields byte-identical output.
pub proof fn lemma_render_deterministic(
    opt: Options,
    markdown: Seq<char>,
    first: Seq<char>,
    second: Seq<char>,
)
    requires
        first == spec_rendered_page(opt, markdown),
        second == spec_rendered_page(opt, markdown),
    ensures
        first == second,
{
}

/// The body of a rendered page is the sanitizer's output for the parsed
/// input, inserted verbatim between the head and the fixed epilogue:
/// rendering never bypasses sanitization and never alters the sanitized
/// fragment.
pub proof fn lemma_page_body_is_sanitized_fragment(opt: Options, markdown: Seq<char>)
    ensures
        ({
            let page = spec_rendered_page(opt, markdown);
            let head = doc_head(default_title(), spec_css_name(opt));
            let body = sanitized_of(html_of(markdown));
            &&& page.len() == head.len() + body.len() + doc_epilogue().len()
            &&& page.subrange(head.len() as int, head.len() + body.len() as int) == body
        }),
{
    lemma_body_inserted_verbatim(
        default_title(),
        sanitized_of(html_of(markdown)),
        spec_css_name(opt),
    );
}

/// The tool adds no script element of its own: when the sanitizer's output
/// for the input holds no occurrence of `<script`, and the stylesheet's file
/// name holds none, then the whole rendered page holds none either.
pub proof fn lemma_page_adds_no_script(opt: Options, markdown: Seq<char>)
    requires
        !contains_seq(sanitized_of(html_of(markdown)), script_open()),
        opt.css_file matches Some(path) ==> !contains_seq(spec_file_name(path@), script_open()),
    ensures
        !contains_seq(spec_rendered_page(opt, markdown), script_open()),
{
    reveal_strlit("Markdown Preview Tool");
    reveal_strlit("<script");
    lemma_digram_absent(default_title(), script_open());
    lemma_template_adds_no_script(
        default_title(),
        sanitized_of(html_of(markdown)),
        spec_css_name(opt),
    );
}

/// With a stylesheet configured, the head of every rendered page holds
/// exactly one stylesheet link, and it references the stylesheet by its file
/// name — provided that name holds no `<link` of its own.  Without a
/// stylesheet, the head holds no `<link` at all.
pub proof fn lemma_page_stylesheet_link(opt: Options, markdown: Seq<char>)
    requires
        opt.css_file matches Some(path) ==> !contains_seq(spec_file_name(path@), link_open()),
    ensures
        opt.css_file matches Some(path) ==> {
            let head = doc_head(default_title(), spec_css_name(opt));
            let name = spec_file_name(path@);
            &&& occurs_at(head, stylesheet_link_tag(name), link_pos(default_title()))
            &&& forall|i: int|
                occurs_at(head, link_open(), i) ==> i == link_pos(default_title())
        },
        opt.css_file is None ==> !contains_seq(
            doc_head(default_title(), spec_css_name(opt)),
            link_open(),
        ),
{
    reveal_strlit("Markdown Preview Tool");
    reveal_strlit("<link");
    lemma_digram_absent(default_title(), link_open());
    match opt.css_file {
        Some(path) => {
            lemma_head_has_one_stylesheet_link(default_title(), spec_file_name(path@));
        },
        None => {
            lemma_head_has_no_stylesheet_link(default_title());
        },
    }
}

} // verus!
