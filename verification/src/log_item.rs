//! The events of the log protocol, the kinds they are tagged with, and the
//! decoder that reads an event from a line of the log.

use crate::json::{items_view, json_text_value, parse, Json, JsonError, JsonErrorView, JsonView};
use crate::text::{has_prefix, spec_has_prefix, str_equal};
use vstd::prelude::*;
use vstd::string::*;

verus! {

/// How severe a message is.  `Error` is the most severe level and has the
/// smallest code; every later level is more talkative than the one before.
#[derive(Clone, Copy, Debug, PartialEq, Eq, Structural, PartialOrd, Ord, Hash)]
pub enum Verbosity {
    Error,
    Warn,
    Notice,
    Info,
    Talkative,
    Chatty,
    Debug,
    Vomit,
}

impl Verbosity {
    /// The wire code of a level: 0 for `Error` up to 7 for `Vomit`.
    pub open spec fn spec_code(self) -> i64 {
        match self {
            Verbosity::Error => 0,
            Verbosity::Warn => 1,
            Verbosity::Notice => 2,
            Verbosity::Info => 3,
            Verbosity::Talkative => 4,
            Verbosity::Chatty => 5,
            Verbosity::Debug => 6,
            Verbosity::Vomit => 7,
        }
    }

    /// The level that a wire code stands for, if it stands for one.
    pub open spec fn spec_from_code(code: i64) -> Option<Verbosity> {
        if code == 0 {
            Some(Verbosity::Error)
        } else if code == 1 {
            Some(Verbosity::Warn)
        } else if code == 2 {
            Some(Verbosity::Notice)
        } else if code == 3 {
            Some(Verbosity::Info)
        } else if code == 4 {
            Some(Verbosity::Talkative)
        } else if code == 5 {
            Some(Verbosity::Chatty)
        } else if code == 6 {
            Some(Verbosity::Debug)
        } else if code == 7 {
            Some(Verbosity::Vomit)
        } else {
            None
        }
    }

    /// Whether `self` is at least as severe as `other`.
    pub open spec fn spec_at_least(self, other: Verbosity) -> bool {
        self.spec_code() <= other.spec_code()
    }

    #[verifier::when_used_as_spec(spec_code)]
    pub fn code(self) -> (code: i64)
        ensures
            code == self.spec_code(),
            0 <= code <= 7,
    {
        match self {
            Verbosity::Error => 0,
            Verbosity::Warn => 1,
            Verbosity::Notice => 2,
            Verbosity::Info => 3,
            Verbosity::Talkative => 4,
            Verbosity::Chatty => 5,
            Verbosity::Debug => 6,
            Verbosity::Vomit => 7,
        }
    }

    #[verifier::when_used_as_spec(spec_from_code)]
    pub fn from_code(code: i64) -> (level: Option<Verbosity>)
        ensures
            level == Verbosity::spec_from_code(code),
            level is Some <==> 0 <= code <= 7,
            level matches Some(l) ==> l.spec_code() == code,
    {
        match code {
            0 => Some(Verbosity::Error),
            1 => Some(Verbosity::Warn),
            2 => Some(Verbosity::Notice),
            3 => Some(Verbosity::Info),
            4 => Some(Verbosity::Talkative),
            5 => Some(Verbosity::Chatty),
            6 => Some(Verbosity::Debug),
            7 => Some(Verbosity::Vomit),
            _ => None,
        }
    }

    /// Whether `self` is at least as severe as `other`: the levels are
    /// ordered by their codes, the most severe first.
    #[verifier::when_used_as_spec(spec_at_least)]
    pub fn at_least(self, other: Verbosity) -> (r: bool)
        ensures
            r == self.spec_at_least(other),
    {
        self.code() <= other.code()
    }
}

/// The kind of an activity.  The set of kinds grows with the protocol, so a
/// code that is not known here is read as `Unknown`.
#[derive(Clone, Copy, Debug, PartialEq, Eq, Structural, Hash)]
#[non_exhaustive]
pub enum ActivityType {
    Unknown,
    CopyPath,
    FileTransfer,
    Realise,
    CopyPaths,
    Builds,
    Build,
    OptimiseStore,
    VerifyPaths,
    Substitute,
    QueryPathInfo,
    PostBuildHook,
    BuildWaiting,
}

impl ActivityType {
    /// The wire code of a kind: 0 for `Unknown`, 100 to 111 for the others.
    pub open spec fn spec_code(self) -> i64 {
        match self {
            ActivityType::Unknown => 0,
            ActivityType::CopyPath => 100,
            ActivityType::FileTransfer => 101,
            ActivityType::Realise => 102,
            ActivityType::CopyPaths => 103,
            ActivityType::Builds => 104,
            ActivityType::Build => 105,
            ActivityType::OptimiseStore => 106,
            ActivityType::VerifyPaths => 107,
            ActivityType::Substitute => 108,
            ActivityType::QueryPathInfo => 109,
            ActivityType::PostBuildHook => 110,
            ActivityType::BuildWaiting => 111,
        }
    }

    /// Whether a wire code names a kind that is defined.
    pub open spec fn spec_is_defined(code: i64) -> bool {
        code == 0 || 100 <= code <= 111
    }

    /// The kind that a wire code stands for; `Unknown` for every code that
    /// is not defined.
    pub open spec fn spec_from_code(code: i64) -> ActivityType {
        if code == 100 {
            ActivityType::CopyPath
        } else if code == 101 {
            ActivityType::FileTransfer
        } else if code == 102 {
            ActivityType::Realise
        } else if code == 103 {
            ActivityType::CopyPaths
        } else if code == 104 {
            ActivityType::Builds
        } else if code == 105 {
            ActivityType::Build
        } else if code == 106 {
            ActivityType::OptimiseStore
        } else if code == 107 {
            ActivityType::VerifyPaths
        } else if code == 108 {
            ActivityType::Substitute
        } else if code == 109 {
            ActivityType::QueryPathInfo
        } else if code == 110 {
            ActivityType::PostBuildHook
        } else if code == 111 {
            ActivityType::BuildWaiting
        } else {
            ActivityType::Unknown
        }
    }

    #[verifier::when_used_as_spec(spec_code)]
    pub fn code(self) -> (code: i64)
        ensures
            code == self.spec_code(),
            ActivityType::spec_is_defined(code),
            ActivityType::spec_from_code(code) == self,
    {
        match self {
            ActivityType::Unknown => 0,
            ActivityType::CopyPath => 100,
            ActivityType::FileTransfer => 101,
            ActivityType::Realise => 102,
            ActivityType::CopyPaths => 103,
            ActivityType::Builds => 104,
            ActivityType::Build => 105,
            ActivityType::OptimiseStore => 106,
            ActivityType::VerifyPaths => 107,
            ActivityType::Substitute => 108,
            ActivityType::QueryPathInfo => 109,
            ActivityType::PostBuildHook => 110,
            ActivityType::BuildWaiting => 111,
        }
    }

    #[verifier::when_used_as_spec(spec_is_defined)]
    pub fn is_defined(code: i64) -> (r: bool)
        ensures
            r == ActivityType::spec_is_defined(code),
    {
        code == 0 || (100 <= code && code <= 111)
    }

    #[verifier::when_used_as_spec(spec_from_code)]
    pub fn from_code(code: i64) -> (kind: ActivityType)
        ensures
            kind == ActivityType::spec_from_code(code),
            ActivityType::spec_is_defined(code) ==> kind.spec_code() == code,
            !ActivityType::spec_is_defined(code) ==> kind == ActivityType::Unknown,
    {
        match code {
            100 => ActivityType::CopyPath,
            101 => ActivityType::FileTransfer,
            102 => ActivityType::Realise,
            103 => ActivityType::CopyPaths,
            104 => ActivityType::Builds,
            105 => ActivityType::Build,
            106 => ActivityType::OptimiseStore,
            107 => ActivityType::VerifyPaths,
            108 => ActivityType::Substitute,
            109 => ActivityType::QueryPathInfo,
            110 => ActivityType::PostBuildHook,
            111 => ActivityType::BuildWaiting,
            _ => ActivityType::Unknown,
        }
    }
}

/// The kind of an update to a running activity.
#[derive(Clone, Copy, Debug, PartialEq, Eq, Structural, Hash)]
#[non_exhaustive]
pub enum ResultType {
    FileLinked,
    BuildLogLine,
    UntrustedPath,
    CorruptedPath,
    SetPhase,
    Progress,
    SetExpected,
    PostBuildLogLine,
}

impl ResultType {
    /// The wire code of a kind: 100 to 107.
    pub open spec fn spec_code(self) -> i64 {
        match self {
            ResultType::FileLinked => 100,
            ResultType::BuildLogLine => 101,
            ResultType::UntrustedPath => 102,
            ResultType::CorruptedPath => 103,
            ResultType::SetPhase => 104,
            ResultType::Progress => 105,
            ResultType::SetExpected => 106,
            ResultType::PostBuildLogLine => 107,
        }
    }

    /// The kind that a wire code stands for, if it stands for one.
    pub open spec fn spec_from_code(code: i64) -> Option<ResultType> {
        if code == 100 {
            Some(ResultType::FileLinked)
        } else if code == 101 {
            Some(ResultType::BuildLogLine)
        } else if code == 102 {
            Some(ResultType::UntrustedPath)
        } else if code == 103 {
            Some(ResultType::CorruptedPath)
        } else if code == 104 {
            Some(ResultType::SetPhase)
        } else if code == 105 {
            Some(ResultType::Progress)
        } else if code == 106 {
            Some(ResultType::SetExpected)
        } else if code == 107 {
            Some(ResultType::PostBuildLogLine)
        } else {
            None
        }
    }

    #[verifier::when_used_as_spec(spec_code)]
    pub fn code(self) -> (code: i64)
        ensures
            code == self.spec_code(),
            100 <= code <= 107,
            ResultType::spec_from_code(code) == Some(self),
    {
        match self {
            ResultType::FileLinked => 100,
            ResultType::BuildLogLine => 101,
            ResultType::UntrustedPath => 102,
            ResultType::CorruptedPath => 103,
            ResultType::SetPhase => 104,
            ResultType::Progress => 105,
            ResultType::SetExpected => 106,
            ResultType::PostBuildLogLine => 107,
        }
    }

    #[verifier::when_used_as_spec(spec_from_code)]
    pub fn from_code(code: i64) -> (kind: Option<ResultType>)
        ensures
            kind == ResultType::spec_from_code(code),
            kind is Some <==> 100 <= code <= 107,
            kind matches Some(k) ==> k.spec_code() == code,
    {
        match code {
            100 => Some(ResultType::FileLinked),
            101 => Some(ResultType::BuildLogLine),
            102 => Some(ResultType::UntrustedPath),
            103 => Some(ResultType::CorruptedPath),
            104 => Some(ResultType::SetPhase),
            105 => Some(ResultType::Progress),
            106 => Some(ResultType::SetExpected),
            107 => Some(ResultType::PostBuildLogLine),
            _ => None,
        }
    }
}

/// What an activity is about, with the details that its kind carries.
#[derive(Debug, Clone, PartialEq, Eq)]
pub enum Activity {
    Unknown,
    CopyPath { path: String, from: String, to: String },
    FileTransfer { uri: String },
    Realise,
    CopyPaths,
    Builds,
    Build { path: String, machine: String, round: i64, total_rounds: i64 },
    OptimiseStore,
    VerifyPaths,
    Substitute { path: String, uri: String },
    QueryPathInfo { path: String, uri: String },
    PostBuildHook { path: String },
    BuildWaiting { path: String, resolved: String },
}

/// The mathematical value of an [`Activity`].
pub enum ActivityView {
    Unknown,
    CopyPath { path: Seq<char>, from: Seq<char>, to: Seq<char> },
    FileTransfer { uri: Seq<char> },
    Realise,
    CopyPaths,
    Builds,
    Build { path: Seq<char>, machine: Seq<char>, round: i64, total_rounds: i64 },
    OptimiseStore,
    VerifyPaths,
    Substitute { path: Seq<char>, uri: Seq<char> },
    QueryPathInfo { path: Seq<char>, uri: Seq<char> },
    PostBuildHook { path: Seq<char> },
    BuildWaiting { path: Seq<char>, resolved: Seq<char> },
}

impl View for Activity {
    type V = ActivityView;

    open spec fn view(&self) -> ActivityView {
        match self {
            Activity::Unknown => ActivityView::Unknown,
            Activity::CopyPath { path, from, to } => ActivityView::CopyPath {
                path: path@,
                from: from@,
                to: to@,
            },
            Activity::FileTransfer { uri } => ActivityView::FileTransfer { uri: uri@ },
            Activity::Realise => ActivityView::Realise,
            Activity::CopyPaths => ActivityView::CopyPaths,
            Activity::Builds => ActivityView::Builds,
            Activity::Build { path, machine, round, total_rounds } => ActivityView::Build {
                path: path@,
                machine: machine@,
                round: *round,
                total_rounds: *total_rounds,
            },
            Activity::OptimiseStore => ActivityView::OptimiseStore,
            Activity::VerifyPaths => ActivityView::VerifyPaths,
            Activity::Substitute { path, uri } => ActivityView::Substitute { path: path@, uri: uri@ },
            Activity::QueryPathInfo { path, uri } => ActivityView::QueryPathInfo {
                path: path@,
                uri: uri@,
            },
            Activity::PostBuildHook { path } => ActivityView::PostBuildHook { path: path@ },
            Activity::BuildWaiting { path, resolved } => ActivityView::BuildWaiting {
                path: path@,
                resolved: resolved@,
            },
        }
    }
}

impl ActivityView {
    /// The kind of the activity.
    pub open spec fn kind(self) -> ActivityType {
        match self {
            ActivityView::Unknown => ActivityType::Unknown,
            ActivityView::CopyPath { .. } => ActivityType::CopyPath,
            ActivityView::FileTransfer { .. } => ActivityType::FileTransfer,
            ActivityView::Realise => ActivityType::Realise,
            ActivityView::CopyPaths => ActivityType::CopyPaths,
            ActivityView::Builds => ActivityType::Builds,
            ActivityView::Build { .. } => ActivityType::Build,
            ActivityView::OptimiseStore => ActivityType::OptimiseStore,
            ActivityView::VerifyPaths => ActivityType::VerifyPaths,
            ActivityView::Substitute { .. } => ActivityType::Substitute,
            ActivityView::QueryPathInfo { .. } => ActivityType::QueryPathInfo,
            ActivityView::PostBuildHook { .. } => ActivityType::PostBuildHook,
            ActivityView::BuildWaiting { .. } => ActivityType::BuildWaiting,
        }
    }

    /// The fields that the activity puts on the wire, in their order.
    pub open spec fn fields(self) -> Seq<JsonView> {
        match self {
            ActivityView::CopyPath { path, from, to } => seq![
                JsonView::Str(path),
                JsonView::Str(from),
                JsonView::Str(to),
            ],
            ActivityView::FileTransfer { uri } => seq![JsonView::Str(uri)],
            ActivityView::Build { path, machine, round, total_rounds } => seq![
                JsonView::Str(path),
                JsonView::Str(machine),
                JsonView::Int(round),
                JsonView::Int(total_rounds),
            ],
            ActivityView::Substitute { path, uri } => seq![JsonView::Str(path), JsonView::Str(uri)],
            ActivityView::QueryPathInfo { path, uri } => seq![
                JsonView::Str(path),
                JsonView::Str(uri),
            ],
            ActivityView::PostBuildHook { path } => seq![JsonView::Str(path)],
            ActivityView::BuildWaiting { path, resolved } => seq![
                JsonView::Str(path),
                JsonView::Str(resolved),
            ],
            _ => Seq::empty(),
        }
    }
}

impl ActivityType {
    /// Whether an activity of this kind carries fields.  For a kind that
    /// carries none, the decoder does not look at the fields of a line.
    pub open spec fn has_fields(self) -> bool {
        match self {
            ActivityType::CopyPath
            | ActivityType::FileTransfer
            | ActivityType::Build
            | ActivityType::Substitute
            | ActivityType::QueryPathInfo
            | ActivityType::PostBuildHook
            | ActivityType::BuildWaiting => true,
            _ => false,
        }
    }
}

impl Activity {
    /// The kind of the activity.
    pub fn to_type(&self) -> (kind: ActivityType)
        ensures
            kind == self@.kind(),
    {
        match self {
            Activity::Unknown => ActivityType::Unknown,
            Activity::CopyPath { .. } => ActivityType::CopyPath,
            Activity::FileTransfer { .. } => ActivityType::FileTransfer,
            Activity::Realise => ActivityType::Realise,
            Activity::CopyPaths => ActivityType::CopyPaths,
            Activity::Builds => ActivityType::Builds,
            Activity::Build { .. } => ActivityType::Build,
            Activity::OptimiseStore => ActivityType::OptimiseStore,
            Activity::VerifyPaths => ActivityType::VerifyPaths,
            Activity::Substitute { .. } => ActivityType::Substitute,
            Activity::QueryPathInfo { .. } => ActivityType::QueryPathInfo,
            Activity::PostBuildHook { .. } => ActivityType::PostBuildHook,
            Activity::BuildWaiting { .. } => ActivityType::BuildWaiting,
        }
    }
}

/// An update to a running activity.
#[derive(Debug, Clone, PartialEq, Eq)]
pub enum LogResult {
    FileLinked { size: i64, blocks: i64 },
    BuildLogLine { line: String },
    UntrustedPath { path: String },
    CorruptedPath { path: String },
    SetPhase { phase: String },
    Progress { done: i64, expected: i64, running: i64, failed: i64 },
    SetExpected { activity_type: ActivityType, expected: i64 },
    PostBuildLogLine { line: String },
}

/// The mathematical value of a [`LogResult`].
pub enum LogResultView {
    FileLinked { size: i64, blocks: i64 },
    BuildLogLine { line: Seq<char> },
    UntrustedPath { path: Seq<char> },
    CorruptedPath { path: Seq<char> },
    SetPhase { phase: Seq<char> },
    Progress { done: i64, expected: i64, running: i64, failed: i64 },
    SetExpected { activity_type: ActivityType, expected: i64 },
    PostBuildLogLine { line: Seq<char> },
}

impl View for LogResult {
    type V = LogResultView;

    open spec fn view(&self) -> LogResultView {
        match self {
            LogResult::FileLinked { size, blocks } => LogResultView::FileLinked {
                size: *size,
                blocks: *blocks,
            },
            LogResult::BuildLogLine { line } => LogResultView::BuildLogLine { line: line@ },
            LogResult::UntrustedPath { path } => LogResultView::UntrustedPath { path: path@ },
            LogResult::CorruptedPath { path } => LogResultView::CorruptedPath { path: path@ },
            LogResult::SetPhase { phase } => LogResultView::SetPhase { phase: phase@ },
            LogResult::Progress { done, expected, running, failed } => LogResultView::Progress {
                done: *done,
                expected: *expected,
                running: *running,
                failed: *failed,
            },
            LogResult::SetExpected { activity_type, expected } => LogResultView::SetExpected {
                activity_type: *activity_type,
                expected: *expected,
            },
            LogResult::PostBuildLogLine { line } => LogResultView::PostBuildLogLine { line: line@ },
        }
    }
}

impl LogResultView {
    /// The kind of the update.
    pub open spec fn kind(self) -> ResultType {
        match self {
            LogResultView::FileLinked { .. } => ResultType::FileLinked,
            LogResultView::BuildLogLine { .. } => ResultType::BuildLogLine,
            LogResultView::UntrustedPath { .. } => ResultType::UntrustedPath,
            LogResultView::CorruptedPath { .. } => ResultType::CorruptedPath,
            LogResultView::SetPhase { .. } => ResultType::SetPhase,
            LogResultView::Progress { .. } => ResultType::Progress,
            LogResultView::SetExpected { .. } => ResultType::SetExpected,
            LogResultView::PostBuildLogLine { .. } => ResultType::PostBuildLogLine,
        }
    }

    /// The fields that the update puts on the wire, in the order in which
    /// the variant declares them.
    pub open spec fn fields(self) -> Seq<JsonView> {
        match self {
            LogResultView::FileLinked { size, blocks } => seq![
                JsonView::Int(size),
                JsonView::Int(blocks),
            ],
            LogResultView::BuildLogLine { line } => seq![JsonView::Str(line)],
            LogResultView::UntrustedPath { path } => seq![JsonView::Str(path)],
            LogResultView::CorruptedPath { path } => seq![JsonView::Str(path)],
            LogResultView::SetPhase { phase } => seq![JsonView::Str(phase)],
            LogResultView::Progress { done, expected, running, failed } => seq![
                JsonView::Int(done),
                JsonView::Int(expected),
                JsonView::Int(running),
                JsonView::Int(failed),
            ],
            LogResultView::SetExpected { activity_type, expected } => seq![
                JsonView::Int(activity_type.spec_code()),
                JsonView::Int(expected),
            ],
            LogResultView::PostBuildLogLine { line } => seq![JsonView::Str(line)],
        }
    }
}

/// One decoded line of the log.
#[derive(Debug, PartialEq, Eq)]
pub enum LogItem {
    /// A free message.
    Msg { level: Verbosity, msg: String },
    /// The activity `id` begins.
    Start { id: i64, level: Verbosity, text: String, activity: Activity },
    /// An update to the activity `id`.
    Result { id: i64, result: LogResult },
    /// The activity `id` ends.
    Stop { id: i64 },
    /// A line that is not structured, as it stood.
    OutputLine(String),
    /// A structured line whose action or shape is not understood, with the
    /// JSON value that it held.
    UnknownItem(Json),
}

/// The mathematical value of a [`LogItem`].
pub enum LogItemView {
    Msg { level: Verbosity, msg: Seq<char> },
    Start { id: i64, level: Verbosity, text: Seq<char>, activity: ActivityView },
    Result { id: i64, result: LogResultView },
    Stop { id: i64 },
    OutputLine(Seq<char>),
    UnknownItem(JsonView),
}

impl View for LogItem {
    type V = LogItemView;

    open spec fn view(&self) -> LogItemView {
        match self {
            LogItem::Msg { level, msg } => LogItemView::Msg { level: *level, msg: msg@ },
            LogItem::Start { id, level, text, activity } => LogItemView::Start {
                id: *id,
                level: *level,
                text: text@,
                activity: activity@,
            },
            LogItem::Result { id, result } => LogItemView::Result { id: *id, result: result@ },
            LogItem::Stop { id } => LogItemView::Stop { id: *id },
            LogItem::OutputLine(text) => LogItemView::OutputLine(text@),
            LogItem::UnknownItem(value) => LogItemView::UnknownItem(value@),
        }
    }
}

/// The view of a value that may be missing.
pub open spec fn option_view<T: View>(value: Option<T>) -> Option<T::V> {
    match value {
        Some(inner) => Some(inner@),
        None => None,
    }
}

/// The marker that a structured line begins with.
pub const PREFIX: &'static str = "@nix ";

/// The number of characters of [`PREFIX`].
pub const PREFIX_LEN: usize = 5;

/// The list of fields of a structured line: the array under `fields`, the
/// empty list where the line has no such member, and nothing where the
/// member is not an array.
pub open spec fn spec_field_list(object: JsonView) -> Option<Seq<JsonView>> {
    match object.get("fields"@) {
        None => Some(Seq::empty()),
        Some(fields) => fields.as_array(),
    }
}

/// The integer under `key`, if the object has one there.
pub open spec fn spec_get_i64(object: JsonView, key: Seq<char>) -> Option<i64> {
    match object.get(key) {
        Some(value) => value.as_i64(),
        None => None,
    }
}

/// The string under `key`, if the object has one there.
pub open spec fn spec_get_str(object: JsonView, key: Seq<char>) -> Option<Seq<char>> {
    match object.get(key) {
        Some(value) => value.as_str(),
        None => None,
    }
}

/// The level under `level`, if the object has an integer there that is the
/// code of a level.
pub open spec fn spec_get_level(object: JsonView) -> Option<Verbosity> {
    match spec_get_i64(object, "level"@) {
        Some(code) => Verbosity::spec_from_code(code),
        None => None,
    }
}

/// Whether `fields` is a list of `count` items of which those before `texts`
/// are strings and the others are integers in the range of `i64`.
pub open spec fn spec_shape(fields: Option<Seq<JsonView>>, texts: int, count: int) -> bool {
    &&& fields matches Some(list)
    &&& list.len() == count
    &&& forall|i: int| 0 <= i < texts && i < count ==> (#[trigger] list[i]).as_str() is Some
    &&& forall|i: int| texts <= i < count ==> (#[trigger] list[i]).as_i64() is Some
}

/// The activity of kind `kind` that a list of fields describes.  A kind that
/// carries fields asks for a list of exactly its fields, each of its type;
/// a kind that carries none takes any list, and even a `fields` member that
/// is no list.
pub open spec fn spec_decode_activity(kind: ActivityType, fields: Option<Seq<JsonView>>) -> Option<
    ActivityView,
> {
    let f = fields->Some_0;
    match kind {
        ActivityType::Unknown => Some(ActivityView::Unknown),
        ActivityType::Realise => Some(ActivityView::Realise),
        ActivityType::CopyPaths => Some(ActivityView::CopyPaths),
        ActivityType::Builds => Some(ActivityView::Builds),
        ActivityType::OptimiseStore => Some(ActivityView::OptimiseStore),
        ActivityType::VerifyPaths => Some(ActivityView::VerifyPaths),
        ActivityType::CopyPath => if spec_shape(fields, 3, 3) {
            Some(
                ActivityView::CopyPath {
                    path: f[0]->Str_0,
                    from: f[1]->Str_0,
                    to: f[2]->Str_0,
                },
            )
        } else {
            None
        },
        ActivityType::FileTransfer => if spec_shape(fields, 1, 1) {
            Some(ActivityView::FileTransfer { uri: f[0]->Str_0 })
        } else {
            None
        },
        ActivityType::Build => if spec_shape(fields, 2, 4) {
            Some(
                ActivityView::Build {
                    path: f[0]->Str_0,
                    machine: f[1]->Str_0,
                    round: f[2]->Int_0,
                    total_rounds: f[3]->Int_0,
                },
            )
        } else {
            None
        },
        ActivityType::Substitute => if spec_shape(fields, 2, 2) {
            Some(ActivityView::Substitute { path: f[0]->Str_0, uri: f[1]->Str_0 })
        } else {
            None
        },
        ActivityType::QueryPathInfo => if spec_shape(fields, 2, 2) {
            Some(ActivityView::QueryPathInfo { path: f[0]->Str_0, uri: f[1]->Str_0 })
        } else {
            None
        },
        ActivityType::PostBuildHook => if spec_shape(fields, 1, 1) {
            Some(ActivityView::PostBuildHook { path: f[0]->Str_0 })
        } else {
            None
        },
        ActivityType::BuildWaiting => if spec_shape(fields, 2, 2) {
            Some(ActivityView::BuildWaiting { path: f[0]->Str_0, resolved: f[1]->Str_0 })
        } else {
            None
        },
    }
}

/// The update of kind `kind` that a list of fields describes: the list has
/// to hold exactly the fields of the kind, each of its type.
pub open spec fn spec_decode_result(kind: ResultType, fields: Option<Seq<JsonView>>) -> Option<
    LogResultView,
> {
    let f = fields->Some_0;
    match kind {
        ResultType::FileLinked => if spec_shape(fields, 0, 2) {
            Some(LogResultView::FileLinked { size: f[0]->Int_0, blocks: f[1]->Int_0 })
        } else {
            None
        },
        ResultType::BuildLogLine => if spec_shape(fields, 1, 1) {
            Some(LogResultView::BuildLogLine { line: f[0]->Str_0 })
        } else {
            None
        },
        ResultType::UntrustedPath => if spec_shape(fields, 1, 1) {
            Some(LogResultView::UntrustedPath { path: f[0]->Str_0 })
        } else {
            None
        },
        ResultType::CorruptedPath => if spec_shape(fields, 1, 1) {
            Some(LogResultView::CorruptedPath { path: f[0]->Str_0 })
        } else {
            None
        },
        ResultType::SetPhase => if spec_shape(fields, 1, 1) {
            Some(LogResultView::SetPhase { phase: f[0]->Str_0 })
        } else {
            None
        },
        ResultType::Progress => if spec_shape(fields, 0, 4) {
            Some(
                LogResultView::Progress {
                    done: f[0]->Int_0,
                    expected: f[1]->Int_0,
                    running: f[2]->Int_0,
                    failed: f[3]->Int_0,
                },
            )
        } else {
            None
        },
        ResultType::SetExpected => if spec_shape(fields, 0, 2) {
            Some(
                LogResultView::SetExpected {
                    activity_type: ActivityType::spec_from_code(f[0]->Int_0),
                    expected: f[1]->Int_0,
                },
            )
        } else {
            None
        },
        ResultType::PostBuildLogLine => if spec_shape(fields, 1, 1) {
            Some(LogResultView::PostBuildLogLine { line: f[0]->Str_0 })
        } else {
            None
        },
    }
}

/// The message that an object with the action `msg` reports.
pub open spec fn spec_parse_msg(object: JsonView) -> Option<LogItemView> {
    match (spec_get_level(object), spec_get_str(object, "msg"@)) {
        (Some(level), Some(msg)) => Some(LogItemView::Msg { level, msg }),
        _ => None,
    }
}

/// The start that an object with the action `start` reports.  A `type` that
/// is the code of no kind makes the activity `Unknown`.
pub open spec fn spec_parse_start(object: JsonView) -> Option<LogItemView> {
    match (
        spec_get_i64(object, "type"@),
        spec_get_i64(object, "id"@),
        spec_get_level(object),
        spec_get_str(object, "text"@),
    ) {
        (Some(code), Some(id), Some(level), Some(text)) => match spec_decode_activity(
            ActivityType::spec_from_code(code),
            spec_field_list(object),
        ) {
            Some(activity) => Some(LogItemView::Start { id, level, text, activity }),
            None => None,
        },
        _ => None,
    }
}

/// The end that an object with the action `stop` reports.
pub open spec fn spec_parse_stop(object: JsonView) -> Option<LogItemView> {
    match spec_get_i64(object, "id"@) {
        Some(id) => Some(LogItemView::Stop { id }),
        None => None,
    }
}

/// The update that an object with the action `result` reports.
pub open spec fn spec_parse_result(object: JsonView) -> Option<LogItemView> {
    match (spec_get_i64(object, "type"@), spec_get_i64(object, "id"@)) {
        (Some(code), Some(id)) => match ResultType::spec_from_code(code) {
            Some(kind) => match spec_decode_result(kind, spec_field_list(object)) {
                Some(result) => Some(LogItemView::Result { id, result }),
                None => None,
            },
            None => None,
        },
        _ => None,
    }
}

/// The event that a JSON value reports, if it reports one: the value has to
/// be an object whose `action` is one of `msg`, `start`, `stop` and `result`,
/// with the members that the action asks for.
pub open spec fn spec_parse_log_item(value: JsonView) -> Option<LogItemView> {
    match spec_get_str(value, "action"@) {
        Some(action) => if action == "msg"@ {
            spec_parse_msg(value)
        } else if action == "start"@ {
            spec_parse_start(value)
        } else if action == "stop"@ {
            spec_parse_stop(value)
        } else if action == "result"@ {
            spec_parse_result(value)
        } else {
            None
        },
        None => None,
    }
}

/// The item that the JSON value of a structured line stands for: its event,
/// or the value itself where it reports none.
pub open spec fn spec_item_of(value: JsonView) -> LogItemView {
    match spec_parse_log_item(value) {
        Some(item) => item,
        None => LogItemView::UnknownItem(value),
    }
}

/// Whether a line is structured: whether it begins with [`PREFIX`].
pub open spec fn spec_is_structured(line: Seq<char>) -> bool {
    spec_has_prefix(line, PREFIX@)
}

/// What a structured line holds behind [`PREFIX`].
pub open spec fn spec_payload(line: Seq<char>) -> Seq<char> {
    line.subrange(PREFIX_LEN as int, line.len() as int)
}

/// The item of a line, given what parsing its payload as JSON yields.
pub open spec fn spec_parse_line(line: Seq<char>, parsed: Result<JsonView, JsonErrorView>) -> Result<
    LogItemView,
    JsonErrorView,
> {
    if !spec_is_structured(line) {
        Ok(LogItemView::OutputLine(line))
    } else {
        match parsed {
            Ok(value) => Ok(spec_item_of(value)),
            Err(error) => Err(error),
        }
    }
}

/// The view of the outcome of decoding a line.
pub open spec fn decoded_view(outcome: Result<LogItem, JsonError>) -> Result<
    LogItemView,
    JsonErrorView,
> {
    match outcome {
        Ok(item) => Ok(item@),
        Err(error) => Err(error@),
    }
}

/// The views of the items of a list of fields that may be missing.
pub open spec fn fields_view(fields: Option<&Vec<Json>>) -> Option<Seq<JsonView>> {
    match fields {
        Some(list) => Some(items_view(list@)),
        None => None,
    }
}

fn get_i64(object: &Json, key: &str) -> (r: Option<i64>)
    ensures
        r == spec_get_i64(object@, key@),
{
    match object.get(key) {
        Some(value) => value.as_i64(),
        None => None,
    }
}

fn get_str<'a>(object: &'a Json, key: &str) -> (r: Option<&'a str>)
    ensures
        r is Some <==> spec_get_str(object@, key@) is Some,
        r matches Some(text) ==> spec_get_str(object@, key@) == Some(text@),
{
    match object.get(key) {
        Some(value) => value.as_str(),
        None => None,
    }
}

fn get_level(object: &Json) -> (r: Option<Verbosity>)
    ensures
        r == spec_get_level(object@),
{
    match get_i64(object, "level") {
        Some(code) => Verbosity::from_code(code),
        None => None,
    }
}

fn field_list<'a>(object: &'a Json, empty: &'a Vec<Json>) -> (r: Option<&'a Vec<Json>>)
    requires
        empty@.len() == 0,
    ensures
        fields_view(r) == spec_field_list(object@),
{
    match object.get("fields") {
        None => {
            assert(items_view(empty@) =~= Seq::<JsonView>::empty());
            Some(empty)
        },
        Some(fields) => fields.as_array(),
    }
}

fn text_at(list: &Vec<Json>, i: usize) -> (r: Option<String>)
    requires
        i < list.len(),
    ensures
        option_view(r) == items_view(list@)[i as int].as_str(),
{
    match list[i].as_str() {
        Some(text) => Some(text.to_owned()),
        None => None,
    }
}

fn int_at(list: &Vec<Json>, i: usize) -> (r: Option<i64>)
    requires
        i < list.len(),
    ensures
        r == items_view(list@)[i as int].as_i64(),
{
    list[i].as_i64()
}

/// Reads the activity of kind `kind` from the fields of a line.
fn decode_activity(kind: ActivityType, fields: Option<&Vec<Json>>) -> (r: Option<Activity>)
    ensures
        option_view(r) == spec_decode_activity(kind, fields_view(fields)),
{
    match kind {
        ActivityType::Unknown => Some(Activity::Unknown),
        ActivityType::Realise => Some(Activity::Realise),
        ActivityType::CopyPaths => Some(Activity::CopyPaths),
        ActivityType::Builds => Some(Activity::Builds),
        ActivityType::OptimiseStore => Some(Activity::OptimiseStore),
        ActivityType::VerifyPaths => Some(Activity::VerifyPaths),
        ActivityType::CopyPath => match fields {
            Some(list) if list.len() == 3 => match (
                text_at(list, 0),
                text_at(list, 1),
                text_at(list, 2),
            ) {
                (Some(path), Some(from), Some(to)) => Some(Activity::CopyPath { path, from, to }),
                _ => None,
            },
            _ => None,
        },
        ActivityType::FileTransfer => match fields {
            Some(list) if list.len() == 1 => match text_at(list, 0) {
                Some(uri) => Some(Activity::FileTransfer { uri }),
                None => None,
            },
            _ => None,
        },
        ActivityType::Build => match fields {
            Some(list) if list.len() == 4 => match (
                text_at(list, 0),
                text_at(list, 1),
                int_at(list, 2),
                int_at(list, 3),
            ) {
                (Some(path), Some(machine), Some(round), Some(total_rounds)) => Some(
                    Activity::Build { path, machine, round, total_rounds },
                ),
                _ => None,
            },
            _ => None,
        },
        ActivityType::Substitute => match fields {
            Some(list) if list.len() == 2 => match (text_at(list, 0), text_at(list, 1)) {
                (Some(path), Some(uri)) => Some(Activity::Substitute { path, uri }),
                _ => None,
            },
            _ => None,
        },
        ActivityType::QueryPathInfo => match fields {
            Some(list) if list.len() == 2 => match (text_at(list, 0), text_at(list, 1)) {
                (Some(path), Some(uri)) => Some(Activity::QueryPathInfo { path, uri }),
                _ => None,
            },
            _ => None,
        },
        ActivityType::PostBuildHook => match fields {
            Some(list) if list.len() == 1 => match text_at(list, 0) {
                Some(path) => Some(Activity::PostBuildHook { path }),
                None => None,
            },
            _ => None,
        },
        ActivityType::BuildWaiting => match fields {
            Some(list) if list.len() == 2 => match (text_at(list, 0), text_at(list, 1)) {
                (Some(path), Some(resolved)) => Some(Activity::BuildWaiting { path, resolved }),
                _ => None,
            },
            _ => None,
        },
    }
}

/// Reads the update of kind `kind` from the fields of a line.
fn decode_result(kind: ResultType, fields: Option<&Vec<Json>>) -> (r: Option<LogResult>)
    ensures
        option_view(r) == spec_decode_result(kind, fields_view(fields)),
{
    match kind {
        ResultType::FileLinked => match fields {
            Some(list) if list.len() == 2 => match (int_at(list, 0), int_at(list, 1)) {
                (Some(size), Some(blocks)) => Some(LogResult::FileLinked { size, blocks }),
                _ => None,
            },
            _ => None,
        },
        ResultType::BuildLogLine => match fields {
            Some(list) if list.len() == 1 => match text_at(list, 0) {
                Some(line) => Some(LogResult::BuildLogLine { line }),
                None => None,
            },
            _ => None,
        },
        ResultType::UntrustedPath => match fields {
            Some(list) if list.len() == 1 => match text_at(list, 0) {
                Some(path) => Some(LogResult::UntrustedPath { path }),
                None => None,
            },
            _ => None,
        },
        ResultType::CorruptedPath => match fields {
            Some(list) if list.len() == 1 => match text_at(list, 0) {
                Some(path) => Some(LogResult::CorruptedPath { path }),
                None => None,
            },
            _ => None,
        },
        ResultType::SetPhase => match fields {
            Some(list) if list.len() == 1 => match text_at(list, 0) {
                Some(phase) => Some(LogResult::SetPhase { phase }),
                None => None,
            },
            _ => None,
        },
        ResultType::Progress => match fields {
            Some(list) if list.len() == 4 => match (
                int_at(list, 0),
                int_at(list, 1),
                int_at(list, 2),
                int_at(list, 3),
            ) {
                (Some(done), Some(expected), Some(running), Some(failed)) => Some(
                    LogResult::Progress { done, expected, running, failed },
                ),
                _ => None,
            },
            _ => None,
        },
        ResultType::SetExpected => match fields {
            Some(list) if list.len() == 2 => match (int_at(list, 0), int_at(list, 1)) {
                (Some(code), Some(expected)) => Some(
                    LogResult::SetExpected {
                        activity_type: ActivityType::from_code(code),
                        expected,
                    },
                ),
                _ => None,
            },
            _ => None,
        },
        ResultType::PostBuildLogLine => match fields {
            Some(list) if list.len() == 1 => match text_at(list, 0) {
                Some(line) => Some(LogResult::PostBuildLogLine { line }),
                None => None,
            },
            _ => None,
        },
    }
}

/// Reads an event from the JSON value of a structured line.
///
/// The value has to be an object whose `action` is one of `msg`, `start`,
/// `stop` and `result`, and which holds the members that the action asks
/// for: `level` and `msg`; `id`, `level`, `text`, `type` and the fields of
/// the activity; `id`; `id`, `type` and the fields of the update.  Every
/// other value gives `None`.
pub fn parse_log_item(val: &Json) -> (r: Option<LogItem>)
    ensures
        option_view(r) == spec_parse_log_item(val@),
{
    let action = match get_str(val, "action") {
        Some(action) => action,
        None => {
            return None;
        },
    };
    if str_equal(action, "msg") {
        match (get_level(val), get_str(val, "msg")) {
            (Some(level), Some(msg)) => Some(LogItem::Msg { level, msg: msg.to_owned() }),
            _ => None,
        }
    } else if str_equal(action, "start") {
        let empty: Vec<Json> = Vec::new();
        match (get_i64(val, "type"), get_i64(val, "id"), get_level(val), get_str(val, "text")) {
            (Some(code), Some(id), Some(level), Some(text)) => {
                let fields = field_list(val, &empty);
                match decode_activity(ActivityType::from_code(code), fields) {
                    Some(activity) => Some(
                        LogItem::Start { id, level, text: text.to_owned(), activity },
                    ),
                    None => None,
                }
            },
            _ => None,
        }
    } else if str_equal(action, "stop") {
        match get_i64(val, "id") {
            Some(id) => Some(LogItem::Stop { id }),
            None => None,
        }
    } else if str_equal(action, "result") {
        let empty: Vec<Json> = Vec::new();
        match (get_i64(val, "type"), get_i64(val, "id")) {
            (Some(code), Some(id)) => match ResultType::from_code(code) {
                Some(kind) => match decode_result(kind, field_list(val, &empty)) {
                    Some(result) => Some(LogItem::Result { id, result }),
                    None => None,
                },
                None => None,
            },
            _ => None,
        }
    } else {
        None
    }
}

/// The item that the JSON value of a structured line stands for: the event
/// that it reports, or `UnknownItem` with the value where it reports none.
pub fn log_item_from(value: Json) -> (item: LogItem)
    ensures
        item@ == spec_item_of(value@),
{
    match parse_log_item(&value) {
        Some(item) => item,
        None => LogItem::UnknownItem(value),
    }
}

/// Decodes one line of the log.
///
/// A line that does not begin with [`PREFIX`] is an `OutputLine` with the
/// line as it stands.  Of any other line, what follows the prefix is parsed
/// as JSON: where that fails the error is handed back, and else the line is
/// the event that the value reports, or `UnknownItem`.
pub fn parse_line(line: &str) -> (r: Result<LogItem, JsonError>)
    ensures
        decoded_view(r) == spec_parse_line(line@, json_text_value(spec_payload(line@))),
        !spec_is_structured(line@) ==> (r matches Ok(item) && item@ == LogItemView::OutputLine(
            line@,
        )),
        r is Err <==> spec_is_structured(line@) && json_text_value(spec_payload(line@)) is Err,
{
    if !has_prefix(line, PREFIX) {
        Ok(LogItem::OutputLine(line.to_owned()))
    } else {
        proof {
            reveal_strlit("@nix ");
        }
        let payload = line.substring_char(PREFIX_LEN, line.unicode_len());
        match parse(payload) {
            Ok(value) => Ok(log_item_from(value)),
            Err(error) => Err(error),
        }
    }
}

} // verus!
