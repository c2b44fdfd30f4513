//! The three passes as runs: what an embedding has to do, step by step, to
//! take a source text through a pass, and what comes of each step.
//!
//! A run starts with one of `transform_code_str`, `transform_code_str_insert_sca`
//! and `transform_user_code_str`.  Each hands back the first `Action`.  The
//! embedding performs an action and reports its outcome as an `Event` to
//! `Run::step`, which hands back the next action, until the action is `Finish`.
use vstd::prelude::*;
use vstd::string::*;
use crate::dialect::{select_sourcetype_based_on_enum, source_type_of, SourceType};
use crate::hooks::{
    code_str_includes_instrument_funcs, code_str_includes_taint_hooks, names_instrument_hook,
    names_taint_hook, HookUsage, PACKAGE_LOADED, PACKAGE_WRAPPED,
};
use crate::imports::{insert_import_statement, with_import};
use crate::insert_code::{
    access_local_variables_statement, insert_access_local_variables, insert_package_loaded,
    insert_package_wrapped, package_marker_statement,
};
use crate::instructions::FileInstructions;
use crate::syntax::{statement_views, texts, Statement, StatementView};
use crate::transformer::Transformer;

verus! {

/// Why a run ended without a rewritten text.
#[derive(Debug, PartialEq, Eq)]
pub enum TransformError {
    /// The text already names a hook of the instrumentation pass.
    AlreadyInstrumented,
    /// The text already names a hook of the taint pass.
    AlreadyWrapped,
    /// The parser gave up, or reported these errors.
    Syntax(Vec<String>),
    /// Scope resolution reported these errors.
    Semantic(Vec<String>),
    /// The embedding reported an event that the run was not waiting for.
    UnexpectedEvent,
}

/// The mathematical value of a `TransformError`.
pub ghost enum TransformErrorView {
    AlreadyInstrumented,
    AlreadyWrapped,
    Syntax(Seq<Seq<char>>),
    Semantic(Seq<Seq<char>>),
    UnexpectedEvent,
}

impl View for TransformError {
    type V = TransformErrorView;

    open spec fn view(&self) -> TransformErrorView {
        match self {
            TransformError::AlreadyInstrumented => TransformErrorView::AlreadyInstrumented,
            TransformError::AlreadyWrapped => TransformErrorView::AlreadyWrapped,
            TransformError::Syntax(errors) => TransformErrorView::Syntax(texts(errors@)),
            TransformError::Semantic(errors) => TransformErrorView::Semantic(texts(errors@)),
            TransformError::UnexpectedEvent => TransformErrorView::UnexpectedEvent,
        }
    }
}

/// The texts of a list, with `, ` between one and the next.
pub open spec fn separated(items: Seq<Seq<char>>) -> Seq<char>
    decreases items.len(),
{
    if items.len() == 0 {
        Seq::empty()
    } else if items.len() == 1 {
        items[0]
    } else {
        separated(items.drop_last()) + ", "@ + items.last()
    }
}

/// What a `TransformError` says: for the errors of the parser and of scope
/// resolution, a heading and the list of errors in square brackets.
pub open spec fn message_text(error: TransformErrorView) -> Seq<char> {
    match error {
        TransformErrorView::AlreadyInstrumented => "Code already contains instrument functions"@,
        TransformErrorView::AlreadyWrapped => "Code already contains taint tracking hook"@,
        TransformErrorView::Syntax(errors) => "Error while parsing code: "@ + "["@ + separated(
            errors,
        ) + "]"@,
        TransformErrorView::Semantic(errors) => "Error during semantic analysis: "@ + "["@
            + separated(errors) + "]"@,
        TransformErrorView::UnexpectedEvent => "Unexpected event for this stage of the run"@,
    }
}

/// Appends to `text` the list `items` in square brackets.
fn append_list(text: &mut String, items: &Vec<String>)
    ensures
        final(text)@ == old(text)@ + "["@ + separated(texts(items@)) + "]"@,
{
    text.append("[");
    let ghost start = text@;
    let ghost all = texts(items@);
    let mut i: usize = 0;
    while i < items.len()
        invariant
            i <= items@.len(),
            all == texts(items@),
            text@ == start + separated(all.subrange(0, i as int)),
        decreases items@.len() - i,
    {
        proof {
            let before = all.subrange(0, i as int);
            let after = all.subrange(0, i + 1);
            assert(after.drop_last() =~= before);
        }
        if i > 0 {
            text.append(", ");
        }
        text.append(items[i].as_str());
        i += 1;
    }
    assert(all.subrange(0, i as int) =~= all);
    text.append("]");
}

impl TransformError {
    /// What the error says.
    pub fn message(&self) -> (text: String)
        ensures
            text@ == message_text(self@),
    {
        match self {
            TransformError::AlreadyInstrumented => {
                "Code already contains instrument functions".to_owned()
            },
            TransformError::AlreadyWrapped => "Code already contains taint tracking hook".to_owned(),
            TransformError::Syntax(errors) => {
                let mut text = "Error while parsing code: ".to_owned();
                append_list(&mut text, errors);
                text
            },
            TransformError::Semantic(errors) => {
                let mut text = "Error during semantic analysis: ".to_owned();
                append_list(&mut text, errors);
                text
            },
            TransformError::UnexpectedEvent => {
                "Unexpected event for this stage of the run".to_owned()
            },
        }
    }
}

/// What the parser reported of a text.
#[derive(Debug, PartialEq, Eq)]
pub struct ParseReport {
    /// The parser gave up.
    pub panicked: bool,
    /// The errors that the parser found.
    pub errors: Vec<String>,
    /// The text holds a static import or export.
    pub has_module_syntax: bool,
}

/// The three passes.
#[derive(Debug, Clone, Copy, PartialEq, Eq, Structural)]
pub enum Pass {
    /// Instruments the functions that a file's instructions name.
    Instrument,
    /// Marks a file as loaded.
    InsertSca,
    /// Wraps the string operations of arbitrary code.
    UserCode,
}

/// What a run is waiting for.
#[derive(Debug, Clone, Copy, PartialEq, Eq, Structural)]
pub enum Stage {
    /// The parser's report.
    Parsing,
    /// The errors of scope resolution.
    Analyzing,
    /// The end of the walk over the tree.
    Traversing,
    /// The printed text.
    Printing,
    /// Nothing: the run is over.
    Finished,
}

/// What the embedding reports to a run.
#[derive(Debug, PartialEq, Eq)]
pub enum Event {
    /// The text was parsed.
    Parsed(ParseReport),
    /// Scopes were resolved, with these errors.
    Analyzed(Vec<String>),
    /// The walk over the tree is over.  `usage` tells which hooks the visited
    /// nodes were made to call, `body` holds the statements of the program.
    Traversed { usage: HookUsage, body: Vec<Statement> },
    /// The tree was printed as this text.
    Printed(String),
}

/// What the embedding does next.
#[derive(Debug, PartialEq, Eq)]
pub enum Action {
    /// Parse the text in this dialect, and report `Parsed`.
    Parse(SourceType),
    /// Resolve the scopes of the tree, and report `Analyzed`.
    Analyze,
    /// Walk the tree and let the pass visit its nodes, then report `Traversed`.
    Traverse,
    /// Make these the statements of the program, print it, and report `Printed`.
    Print(Vec<Statement>),
    /// Stop: this is what the run comes to.
    Finish(Result<String, TransformError>),
}

/// The mathematical value of an `Event`.
pub ghost enum EventView {
    Parsed { panicked: bool, errors: Seq<Seq<char>>, has_module_syntax: bool },
    Analyzed(Seq<Seq<char>>),
    Traversed { usage: HookUsage, body: Seq<StatementView> },
    Printed(Seq<char>),
}

/// The mathematical value of an `Action`.
pub ghost enum ActionView {
    Parse(SourceType),
    Analyze,
    Traverse,
    Print(Seq<StatementView>),
    Finish(Result<Seq<char>, TransformErrorView>),
}

impl View for Event {
    type V = EventView;

    open spec fn view(&self) -> EventView {
        match self {
            Event::Parsed(report) => EventView::Parsed {
                panicked: report.panicked,
                errors: texts(report.errors@),
                has_module_syntax: report.has_module_syntax,
            },
            Event::Analyzed(errors) => EventView::Analyzed(texts(errors@)),
            Event::Traversed { usage, body } => EventView::Traversed {
                usage: *usage,
                body: statement_views(body@),
            },
            Event::Printed(text) => EventView::Printed(text@),
        }
    }
}

impl View for Action {
    type V = ActionView;

    open spec fn view(&self) -> ActionView {
        match self {
            Action::Parse(source_type) => ActionView::Parse(*source_type),
            Action::Analyze => ActionView::Analyze,
            Action::Traverse => ActionView::Traverse,
            Action::Print(body) => ActionView::Print(statement_views(body@)),
            Action::Finish(Ok(text)) => ActionView::Finish(Ok(text@)),
            Action::Finish(Err(error)) => ActionView::Finish(Err(error@)),
        }
    }
}

/// One run of a pass over one source text.
pub struct Run<'a> {
    pub pass: Pass,
    pub stage: Stage,
    /// The text that the run rewrites.
    pub code: &'a str,
    pub source_type: SourceType,
    /// Whether the text holds a static import or export; known once parsed.
    pub has_module_syntax: bool,
    pub pkg_name: &'a str,
    pub pkg_version: &'a str,
    /// The instructions for the file, in the instrumentation pass.
    pub file_instructions: Option<&'a FileInstructions>,
    /// Whether the file is rewritten for a bundle.
    pub bundling: bool,
}

/// The file hands the values of local variables to the hooks at its end.
pub open spec fn hands_over_locals(run: Run) -> bool {
    match run.file_instructions {
        Some(instructions) => instructions.access_local_variables@.len() > 0,
        None => false,
    }
}

/// The statements of a program after the instrumentation pass has visited
/// its nodes: the call that hands over the local variables and the marker of
/// a bundle are appended where the run asks for them, and the hooks in use
/// are loaded in front.
pub open spec fn finished_instrument(
    run: Run,
    usage: HookUsage,
    body: Seq<StatementView>,
) -> Seq<StatementView> {
    let with_locals = if hands_over_locals(run) {
        body.push(
            access_local_variables_statement(
                run.file_instructions->Some_0.identifier@,
                texts(run.file_instructions->Some_0.access_local_variables@),
            ),
        )
    } else {
        body
    };
    let with_marker = if run.bundling {
        with_locals.push(
            package_marker_statement(PACKAGE_WRAPPED@, run.pkg_name@, run.pkg_version@),
        )
    } else {
        with_locals
    };
    with_import(
        run.source_type,
        run.has_module_syntax,
        with_marker,
        instrument_usage(run, usage),
    )
}

/// The hooks that a program calls after the instrumentation pass: those that
/// the visited nodes call, and those of the statements appended at the end.
pub open spec fn instrument_usage(run: Run, usage: HookUsage) -> HookUsage {
    HookUsage {
        access_local_variables: usage.access_local_variables || hands_over_locals(run),
        package_wrapped: usage.package_wrapped || run.bundling,
        ..usage
    }
}

/// The statements of a program after it was marked as loaded: the marker is
/// appended, and its hook is loaded in front.
pub open spec fn finished_sca(run: Run, body: Seq<StatementView>) -> Seq<StatementView> {
    with_import(
        run.source_type,
        run.has_module_syntax,
        body.push(package_marker_statement(PACKAGE_LOADED@, run.pkg_name@, run.pkg_version@)),
        HookUsage { package_loaded: true, ..HookUsage::none() },
    )
}

/// What a run does on an event: the stage that it goes to, and the action
/// that it asks for.
pub open spec fn next(run: Run, event: EventView) -> (Stage, ActionView) {
    match (run.stage, event) {
        (Stage::Parsing, EventView::Parsed { panicked, errors, has_module_syntax }) => {
            if panicked || errors.len() > 0 {
                (Stage::Finished, ActionView::Finish(Err(TransformErrorView::Syntax(errors))))
            } else if run.pass == Pass::InsertSca {
                (Stage::Traversing, ActionView::Traverse)
            } else {
                (Stage::Analyzing, ActionView::Analyze)
            }
        },
        (Stage::Analyzing, EventView::Analyzed(errors)) => {
            if errors.len() > 0 {
                (Stage::Finished, ActionView::Finish(Err(TransformErrorView::Semantic(errors))))
            } else {
                (Stage::Traversing, ActionView::Traverse)
            }
        },
        (Stage::Traversing, EventView::Traversed { usage, body }) => match run.pass {
            Pass::Instrument => (
                Stage::Printing,
                ActionView::Print(finished_instrument(run, usage, body)),
            ),
            Pass::InsertSca => (Stage::Printing, ActionView::Print(finished_sca(run, body))),
            Pass::UserCode => if usage.any() {
                (
                    Stage::Printing,
                    ActionView::Print(
                        with_import(run.source_type, run.has_module_syntax, body, usage),
                    ),
                )
            } else {
                (Stage::Finished, ActionView::Finish(Ok(run.code@)))
            },
        },
        (Stage::Printing, EventView::Printed(text)) => (
            Stage::Finished,
            ActionView::Finish(Ok(text)),
        ),
        _ => (Stage::Finished, ActionView::Finish(Err(TransformErrorView::UnexpectedEvent))),
    }
}

/// The run, once it knows whether the text holds module syntax.
pub open spec fn parsed(run: Run, event: EventView) -> bool {
    match (run.stage, event) {
        (Stage::Parsing, EventView::Parsed { has_module_syntax, .. }) => has_module_syntax,
        _ => run.has_module_syntax,
    }
}

impl<'a> Run<'a> {
    /// The state with which a walk of the instrumentation pass starts: the
    /// instructions of the run, its package version, and no hook in use.
    /// `None` for a run of another pass.
    pub fn transformer(&self) -> (pass: Option<Transformer<'a>>)
        ensures
            match pass {
                Some(pass) => {
                    &&& self.pass == Pass::Instrument
                    &&& self.file_instructions == Some(pass.file_instructions)
                    &&& pass.pkg_version == self.pkg_version
                    &&& pass.usage == HookUsage::none()
                },
                None => self.pass != Pass::Instrument || self.file_instructions is None,
            },
    {
        match (self.pass, self.file_instructions) {
            (Pass::Instrument, Some(instructions)) => Some(
                Transformer::new(instructions, self.pkg_version),
            ),
            _ => None,
        }
    }

    /// Takes the outcome of the last action, and tells what to do next.
    ///
    /// A text that did not parse, or whose scopes did not resolve, ends the
    /// run with the errors reported.  After the walk, the run completes the
    /// program: it appends what the pass appends and loads exactly the hooks
    /// in use.  The taint pass ends with the text it was given, unchanged,
    /// where the walk rewrote nothing.
    pub fn step(&mut self, event: Event) -> (action: Action)
        ensures
            (final(self).stage, action@) == next(*old(self), event@),
            final(self).has_module_syntax == parsed(*old(self), event@),
            final(self).pass == old(self).pass,
            final(self).code == old(self).code,
            final(self).source_type == old(self).source_type,
            final(self).pkg_name == old(self).pkg_name,
            final(self).pkg_version == old(self).pkg_version,
            final(self).file_instructions == old(self).file_instructions,
            final(self).bundling == old(self).bundling,
    {
        match (self.stage, event) {
            (Stage::Parsing, Event::Parsed(report)) => {
                self.has_module_syntax = report.has_module_syntax;
                if report.panicked || report.errors.len() > 0 {
                    self.stage = Stage::Finished;
                    Action::Finish(Err(TransformError::Syntax(report.errors)))
                } else {
                    match self.pass {
                        Pass::InsertSca => {
                            self.stage = Stage::Traversing;
                            Action::Traverse
                        },
                        _ => {
                            self.stage = Stage::Analyzing;
                            Action::Analyze
                        },
                    }
                }
            },
            (Stage::Analyzing, Event::Analyzed(errors)) => {
                if errors.len() > 0 {
                    self.stage = Stage::Finished;
                    Action::Finish(Err(TransformError::Semantic(errors)))
                } else {
                    self.stage = Stage::Traversing;
                    Action::Traverse
                }
            },
            (Stage::Traversing, Event::Traversed { usage, body }) => {
                let mut body = body;
                let mut usage = usage;
                match self.pass {
                    Pass::Instrument => {
                        match self.file_instructions {
                            Some(instructions) => {
                                if instructions.access_local_variables.len() > 0 {
                                    insert_access_local_variables(
                                        instructions.identifier.as_str(),
                                        &instructions.access_local_variables,
                                        &mut body,
                                    );
                                    usage.access_local_variables = true;
                                }
                            },
                            None => {},
                        }
                        if self.bundling {
                            insert_package_wrapped(self.pkg_name, self.pkg_version, &mut body);
                            usage.package_wrapped = true;
                        }
                        insert_import_statement(
                            &self.source_type,
                            self.has_module_syntax,
                            &mut body,
                            &usage,
                        );
                        self.stage = Stage::Printing;
                        Action::Print(body)
                    },
                    Pass::InsertSca => {
                        insert_package_loaded(self.pkg_name, self.pkg_version, &mut body);
                        let mut loaded = HookUsage::new();
                        loaded.package_loaded = true;
                        insert_import_statement(
                            &self.source_type,
                            self.has_module_syntax,
                            &mut body,
                            &loaded,
                        );
                        self.stage = Stage::Printing;
                        Action::Print(body)
                    },
                    Pass::UserCode => {
                        if insert_import_statement(
                            &self.source_type,
                            self.has_module_syntax,
                            &mut body,
                            &usage,
                        ) {
                            self.stage = Stage::Printing;
                            Action::Print(body)
                        } else {
                            self.stage = Stage::Finished;
                            Action::Finish(Ok(self.code.to_owned()))
                        }
                    },
                }
            },
            (Stage::Printing, Event::Printed(text)) => {
                self.stage = Stage::Finished;
                Action::Finish(Ok(text))
            },
            _ => {
                self.stage = Stage::Finished;
                Action::Finish(Err(TransformError::UnexpectedEvent))
            },
        }
    }
}

/// A run in its first stage.
pub open spec fn started<'a>(
    pass: Pass,
    first: Stage,
    pkg_name: &'a str,
    pkg_version: &'a str,
    code: &'a str,
    file_instructions: Option<&'a FileInstructions>,
    src_type: Seq<char>,
    bundling: bool,
) -> Run<'a> {
    Run {
        pass,
        stage: first,
        code,
        source_type: source_type_of(src_type),
        has_module_syntax: false,
        pkg_name,
        pkg_version,
        file_instructions,
        bundling,
    }
}

/// Starts a run of the instrumentation pass over `code`.
///
/// A text that already names a hook of the pass is not taken: the run is over
/// at once, with `AlreadyInstrumented`.  Any other text is to be parsed in the
/// dialect that `src_type` stands for.
pub fn transform_code_str<'a>(
    pkg_name: &'a str,
    pkg_version: &'a str,
    code: &'a str,
    file_instructions: &'a FileInstructions,
    src_type: &str,
    bundling: bool,
) -> (start: (Run<'a>, Action))
    ensures
        start.0 == started(
            Pass::Instrument,
            if names_instrument_hook(code@) {
                Stage::Finished
            } else {
                Stage::Parsing
            },
            pkg_name,
            pkg_version,
            code,
            Some(file_instructions),
            src_type@,
            bundling,
        ),
        start.1@ == if names_instrument_hook(code@) {
            ActionView::Finish(Err(TransformErrorView::AlreadyInstrumented))
        } else {
            ActionView::Parse(source_type_of(src_type@))
        },
{
    let source_type = select_sourcetype_based_on_enum(src_type);
    let refused = code_str_includes_instrument_funcs(code);
    let run = Run {
        pass: Pass::Instrument,
        stage: if refused {
            Stage::Finished
        } else {
            Stage::Parsing
        },
        code,
        source_type,
        has_module_syntax: false,
        pkg_name,
        pkg_version,
        file_instructions: Some(file_instructions),
        bundling,
    };
    if refused {
        (run, Action::Finish(Err(TransformError::AlreadyInstrumented)))
    } else {
        (run, Action::Parse(source_type))
    }
}

/// Starts a run that marks `code` as loaded.  The text is to be parsed in the
/// dialect that `src_type` stands for.
pub fn transform_code_str_insert_sca<'a>(
    pkg_name: &'a str,
    pkg_version: &'a str,
    code: &'a str,
    src_type: &str,
) -> (start: (Run<'a>, Action))
    ensures
        start.0 == started(
            Pass::InsertSca,
            Stage::Parsing,
            pkg_name,
            pkg_version,
            code,
            None,
            src_type@,
            false,
        ),
        start.1@ == ActionView::Parse(source_type_of(src_type@)),
{
    let source_type = select_sourcetype_based_on_enum(src_type);
    let run = Run {
        pass: Pass::InsertSca,
        stage: Stage::Parsing,
        code,
        source_type,
        has_module_syntax: false,
        pkg_name,
        pkg_version,
        file_instructions: None,
        bundling: false,
    };
    (run, Action::Parse(source_type))
}

/// Starts a run of the taint pass over `code`.
///
/// A text that already names a hook of the pass is not taken: the run is over
/// at once, with `AlreadyWrapped`.  Any other text is to be parsed in the
/// dialect that `src_type` stands for.
pub fn transform_user_code_str<'a>(code: &'a str, src_type: &str) -> (start: (Run<'a>, Action))
    ensures
        start.0 == started(
            Pass::UserCode,
            if names_taint_hook(code@) {
                Stage::Finished
            } else {
                Stage::Parsing
            },
            "",
            "",
            code,
            None,
            src_type@,
            false,
        ),
        start.1@ == if names_taint_hook(code@) {
            ActionView::Finish(Err(TransformErrorView::AlreadyWrapped))
        } else {
            ActionView::Parse(source_type_of(src_type@))
        },
{
    let source_type = select_sourcetype_based_on_enum(src_type);
    let refused = code_str_includes_taint_hooks(code);
    let run = Run {
        pass: Pass::UserCode,
        stage: if refused {
            Stage::Finished
        } else {
            Stage::Parsing
        },
        code,
        source_type,
        has_module_syntax: false,
        pkg_name: "",
        pkg_version: "",
        file_instructions: None,
        bundling: false,
    };
    if refused {
        (run, Action::Finish(Err(TransformError::AlreadyWrapped)))
    } else {
        (run, Action::Parse(source_type))
    }
}

} // verus!
