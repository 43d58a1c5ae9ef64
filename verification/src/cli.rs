//! Command-line parsing: the options, their defaults, and how each argument
//! changes the parsed state.

use vstd::prelude::*;
use vstd::string::*;
use crate::backend::{Backend, backend_named, lowercase, lookup_backend};
use crate::number::{decimal_u32, parse_u32};
use crate::text::str_equals;
use crate::embedded::is_bundled;

verus! {

/// A PP-OCR model generation the tool knows how to load.
#[derive(Clone, Copy, Debug, PartialEq, Eq, Structural)]
pub enum ModelVersion {
    V4,
    V5,
    V6,
}

/// File name of a version's detection model.
pub open spec fn det_file(v: ModelVersion) -> Seq<char> {
    match v {
        ModelVersion::V4 => "ch_PP-OCRv4_det_infer.mnn"@,
        ModelVersion::V5 => "PP-OCRv5_mobile_det.mnn"@,
        ModelVersion::V6 => "PP-OCRv6_small_det.mnn"@,
    }
}

/// File name of a version's recognition model.
pub open spec fn rec_file(v: ModelVersion) -> Seq<char> {
    match v {
        ModelVersion::V4 => "ch_PP-OCRv4_rec_infer.mnn"@,
        ModelVersion::V5 => "PP-OCRv5_mobile_rec.mnn"@,
        ModelVersion::V6 => "PP-OCRv6_small_rec.mnn"@,
    }
}

/// File name of a version's character set.
pub open spec fn keys_file(v: ModelVersion) -> Seq<char> {
    match v {
        ModelVersion::V4 => "ppocr_keys_v4.txt"@,
        ModelVersion::V5 => "ppocr_keys_v5.txt"@,
        ModelVersion::V6 => "ppocr_keys_v6.txt"@,
    }
}

/// The file names of one model generation.
pub struct ModelSet {
    pub det: &'static str,
    pub rec: &'static str,
    pub keys: &'static str,
}

/// The file names that belong to a model generation.
pub fn model_set(v: ModelVersion) -> (m: ModelSet)
    ensures
        m.det@ == det_file(v),
        m.rec@ == rec_file(v),
        m.keys@ == keys_file(v),
{
    match v {
        ModelVersion::V4 => ModelSet {
            det: "ch_PP-OCRv4_det_infer.mnn",
            rec: "ch_PP-OCRv4_rec_infer.mnn",
            keys: "ppocr_keys_v4.txt",
        },
        ModelVersion::V5 => ModelSet {
            det: "PP-OCRv5_mobile_det.mnn",
            rec: "PP-OCRv5_mobile_rec.mnn",
            keys: "ppocr_keys_v5.txt",
        },
        ModelVersion::V6 => ModelSet {
            det: "PP-OCRv6_small_det.mnn",
            rec: "PP-OCRv6_small_rec.mnn",
            keys: "ppocr_keys_v6.txt",
        },
    }
}

/// The generation a `--model` value names, if any.
pub open spec fn model_version_named(v: Seq<char>) -> Option<ModelVersion> {
    if v == "v4"@ {
        Some(ModelVersion::V4)
    } else if v == "v5"@ {
        Some(ModelVersion::V5)
    } else if v == "v6"@ {
        Some(ModelVersion::V6)
    } else {
        None
    }
}

/// Looks a `--model` value up.
pub fn model_version_from_name(v: &str) -> (r: Option<ModelVersion>)
    ensures
        r == model_version_named(v@),
{
    if str_equals(v, "v4") {
        Some(ModelVersion::V4)
    } else if str_equals(v, "v5") {
        Some(ModelVersion::V5)
    } else if str_equals(v, "v6") {
        Some(ModelVersion::V6)
    } else {
        None
    }
}

/// The path of a model file inside the default `models` directory
/// (the directory joined with the file name by `/`).
pub open spec fn model_path(file: Seq<char>) -> Seq<char> {
    "models/"@ + file
}

/// Builds the path of a model file inside the default `models` directory.
pub fn model_path_string(file: &str) -> (r: String)
    ensures
        r@ == model_path(file@),
{
    let mut s = String::from_str("models/");
    s.append(file);
    s
}

/// Something the parser noticed and ignored; the caller reports it.
#[derive(Debug, PartialEq, Eq)]
pub enum ParseWarning {
    /// `--model` given to a build whose models are embedded.
    ModelFixedByBundle,
    /// `--model` with a version that is not v4, v5 or v6 (v5 is used).
    UnknownModelVersion(String),
    /// `--det` given to a build whose models are embedded.
    DetFixedByBundle,
    /// `--rec` given to a build whose models are embedded.
    RecFixedByBundle,
    /// `--keys` given to a build whose models are embedded.
    KeysFixedByBundle,
    /// `--backend` with a name that selects no backend (the CPU is used).
    UnknownBackend(String),
    /// An argument that is neither an option nor the first positional one.
    UnknownArgument(String),
}

/// The mathematical value of a [`ParseWarning`].
pub enum WarningModel {
    ModelFixedByBundle,
    UnknownModelVersion(Seq<char>),
    DetFixedByBundle,
    RecFixedByBundle,
    KeysFixedByBundle,
    UnknownBackend(Seq<char>),
    UnknownArgument(Seq<char>),
}

impl View for ParseWarning {
    type V = WarningModel;

    open spec fn view(&self) -> WarningModel {
        match self {
            ParseWarning::ModelFixedByBundle => WarningModel::ModelFixedByBundle,
            ParseWarning::UnknownModelVersion(s) => WarningModel::UnknownModelVersion(s@),
            ParseWarning::DetFixedByBundle => WarningModel::DetFixedByBundle,
            ParseWarning::RecFixedByBundle => WarningModel::RecFixedByBundle,
            ParseWarning::KeysFixedByBundle => WarningModel::KeysFixedByBundle,
            ParseWarning::UnknownBackend(s) => WarningModel::UnknownBackend(s@),
            ParseWarning::UnknownArgument(s) => WarningModel::UnknownArgument(s@),
        }
    }
}

/// The parsed command line.
#[derive(Debug, PartialEq, Eq)]
pub struct CliArgs {
    /// The image to recognise (empty when none was given).
    pub image: String,
    pub det_model: Option<String>,
    pub rec_model: Option<String>,
    pub keys: Option<String>,
    /// The detection model was named by `--det`; `--model` leaves it.
    pub det_given: bool,
    /// The recognition model was named by `--rec`; `--model` leaves it.
    pub rec_given: bool,
    /// The character set was named by `--keys`; `--model` leaves it.
    pub keys_given: bool,
    pub ori_model: Option<String>,
    pub output: Option<String>,
    pub backend: Backend,
    pub threads: Option<u32>,
    pub json: bool,
    pub quiet: bool,
    pub list_models: bool,
    pub help: bool,
    pub version: bool,
    /// What was ignored, in the order the arguments came.
    pub warnings: Vec<ParseWarning>,
}

/// The mathematical value of [`CliArgs`].
pub struct CliModel {
    pub image: Seq<char>,
    pub det_model: Option<Seq<char>>,
    pub rec_model: Option<Seq<char>>,
    pub keys: Option<Seq<char>>,
    pub det_given: bool,
    pub rec_given: bool,
    pub keys_given: bool,
    pub ori_model: Option<Seq<char>>,
    pub output: Option<Seq<char>>,
    pub backend: Backend,
    pub threads: Option<u32>,
    pub json: bool,
    pub quiet: bool,
    pub list_models: bool,
    pub help: bool,
    pub version: bool,
    pub warnings: Seq<WarningModel>,
}

/// The value of an optional string.
pub open spec fn opt_view(o: Option<String>) -> Option<Seq<char>> {
    match o {
        Some(s) => Some(s@),
        None => None,
    }
}

/// The values of a list of warnings.
pub open spec fn warning_views(ws: Seq<ParseWarning>) -> Seq<WarningModel> {
    ws.map_values(|w: ParseWarning| w@)
}

/// The values of the raw arguments.
pub open spec fn arg_views(raw: Seq<String>) -> Seq<Seq<char>> {
    raw.map_values(|s: String| s@)
}

impl View for CliArgs {
    type V = CliModel;

    open spec fn view(&self) -> CliModel {
        CliModel {
            image: self.image@,
            det_model: opt_view(self.det_model),
            rec_model: opt_view(self.rec_model),
            keys: opt_view(self.keys),
            det_given: self.det_given,
            rec_given: self.rec_given,
            keys_given: self.keys_given,
            ori_model: opt_view(self.ori_model),
            output: opt_view(self.output),
            backend: self.backend,
            threads: self.threads,
            json: self.json,
            quiet: self.quiet,
            list_models: self.list_models,
            help: self.help,
            version: self.version,
            warnings: warning_views(self.warnings@),
        }
    }
}

/// The state before any argument is read: no image, the v5 model files
/// (none when the models are embedded), the CPU backend, every flag off.
pub open spec fn initial_model(bundled: bool) -> CliModel {
    CliModel {
        image: Seq::empty(),
        det_model: if bundled { None } else { Some(model_path(det_file(ModelVersion::V5))) },
        rec_model: if bundled { None } else { Some(model_path(rec_file(ModelVersion::V5))) },
        keys: if bundled { None } else { Some(model_path(keys_file(ModelVersion::V5))) },
        det_given: false,
        rec_given: false,
        keys_given: false,
        ori_model: None,
        output: None,
        backend: Backend::CPU,
        threads: None,
        json: false,
        quiet: false,
        list_models: false,
        help: false,
        version: false,
        warnings: Seq::empty(),
    }
}

/// Records a warning.
pub open spec fn warn(st: CliModel, w: WarningModel) -> CliModel {
    CliModel { warnings: st.warnings.push(w), ..st }
}

/// The argument at `i`, or the empty string past the end.
pub open spec fn arg_or_empty(raw: Seq<Seq<char>>, i: int) -> Seq<char> {
    if 0 <= i < raw.len() {
        raw[i]
    } else {
        Seq::empty()
    }
}

/// The effect of `-m <v>` / `--model <v>`: `json` asks for JSON output;
/// otherwise the version's files replace the model files, except those
/// already named by `--det`, `--rec` or `--keys`, which take precedence
/// whatever the order.
pub open spec fn select_model(st: CliModel, v: Seq<char>, bundled: bool) -> CliModel {
    if v == "json"@ {
        CliModel { json: true, ..st }
    } else if bundled {
        warn(st, WarningModel::ModelFixedByBundle)
    } else {
        let ver = match model_version_named(v) {
            Some(x) => x,
            None => ModelVersion::V5,
        };
        let st1 = if model_version_named(v) is None {
            warn(st, WarningModel::UnknownModelVersion(v))
        } else {
            st
        };
        CliModel {
            det_model: if st.det_given { st.det_model } else { Some(model_path(det_file(ver))) },
            rec_model: if st.rec_given { st.rec_model } else { Some(model_path(rec_file(ver))) },
            keys: if st.keys_given { st.keys } else { Some(model_path(keys_file(ver))) },
            ..st1
        }
    }
}

/// The effect of `--backend <v>`.
pub open spec fn select_backend(st: CliModel, v: Seq<char>) -> CliModel {
    match backend_named(lowercase(v)) {
        Some(b) => CliModel { backend: b, ..st },
        None => warn(CliModel { backend: Backend::CPU, ..st }, WarningModel::UnknownBackend(v)),
    }
}

/// An argument that does not start with `-`.
pub open spec fn is_positional(a: Seq<char>) -> bool {
    !(a.len() > 0 && a[0] == '-')
}

/// Reads the argument at `i`: the new state, and the index of the next
/// argument to read (an option that takes a value consumes the next
/// argument, or the empty string when there is none).
pub open spec fn step(st: CliModel, raw: Seq<Seq<char>>, i: int, bundled: bool) -> (CliModel, int) {
    let a = raw[i];
    let v = arg_or_empty(raw, i + 1);
    if a == "-h"@ || a == "--help"@ {
        (CliModel { help: true, ..st }, i + 1)
    } else if a == "-V"@ || a == "--version"@ {
        (CliModel { version: true, ..st }, i + 1)
    } else if a == "--list-models"@ {
        (CliModel { list_models: true, ..st }, i + 1)
    } else if a == "--json"@ {
        (CliModel { json: true, ..st }, i + 1)
    } else if a == "--quiet"@ {
        (CliModel { quiet: true, ..st }, i + 1)
    } else if a == "-m"@ || a == "--model"@ {
        (select_model(st, v, bundled), i + 2)
    } else if a == "--path"@ {
        (CliModel { image: v, ..st }, i + 2)
    } else if a == "--det"@ {
        (if bundled { warn(st, WarningModel::DetFixedByBundle) } else { CliModel { det_model: Some(v), det_given: true, ..st } }, i + 2)
    } else if a == "--rec"@ {
        (if bundled { warn(st, WarningModel::RecFixedByBundle) } else { CliModel { rec_model: Some(v), rec_given: true, ..st } }, i + 2)
    } else if a == "--keys"@ {
        (if bundled { warn(st, WarningModel::KeysFixedByBundle) } else { CliModel { keys: Some(v), keys_given: true, ..st } }, i + 2)
    } else if a == "--ori"@ {
        (CliModel { ori_model: Some(v), ..st }, i + 2)
    } else if a == "--output"@ {
        (CliModel { output: Some(v), ..st }, i + 2)
    } else if a == "--backend"@ {
        (select_backend(st, v), i + 2)
    } else if a == "--threads"@ {
        (CliModel { threads: decimal_u32(v), ..st }, i + 2)
    } else if is_positional(a) && st.image.len() == 0 {
        (CliModel { image: a, ..st }, i + 1)
    } else {
        (warn(st, WarningModel::UnknownArgument(a)), i + 1)
    }
}

/// Every argument read moves the index forward by one or two.
pub proof fn lemma_step_advances(st: CliModel, raw: Seq<Seq<char>>, i: int, bundled: bool)
    ensures
        i + 1 <= step(st, raw, i, bundled).1 <= i + 2,
{
}

/// Reads the arguments from index `i` on, starting in state `st`.
pub open spec fn parse_from(st: CliModel, raw: Seq<Seq<char>>, i: int, bundled: bool) -> CliModel
    decreases raw.len() + 2 - i,
{
    if 0 <= i < raw.len() {
        let r = step(st, raw, i, bundled);
        proof {
            lemma_step_advances(st, raw, i, bundled);
        }
        parse_from(r.0, raw, r.1, bundled)
    } else {
        st
    }
}

/// The parse of a whole command line (`raw[0]` is the program name).
pub open spec fn parsed_args(raw: Seq<Seq<char>>, bundled: bool) -> CliModel {
    parse_from(initial_model(bundled), raw, 1, bundled)
}

/// The state before any argument is read.
pub fn initial_cli_args(bundled: bool) -> (a: CliArgs)
    ensures
        a@ == initial_model(bundled),
{
    let ms = model_set(ModelVersion::V5);
    let a = CliArgs {
        image: String::new(),
        det_model: if bundled { None } else { Some(model_path_string(ms.det)) },
        rec_model: if bundled { None } else { Some(model_path_string(ms.rec)) },
        keys: if bundled { None } else { Some(model_path_string(ms.keys)) },
        det_given: false,
        rec_given: false,
        keys_given: false,
        ori_model: None,
        output: None,
        backend: Backend::CPU,
        threads: None,
        json: false,
        quiet: false,
        list_models: false,
        help: false,
        version: false,
        warnings: Vec::new(),
    };
    assert(a@.warnings =~= Seq::<WarningModel>::empty());
    a
}

fn add_warning(args: &mut CliArgs, w: ParseWarning)
    ensures
        final(args)@ == warn(old(args)@, w@),
{
    args.warnings.push(w);
    assert(warning_views(args.warnings@) =~= warning_views(old(args).warnings@).push(w@));
}

fn value_after(raw: &[String], i: usize) -> (v: String)
    requires
        i < raw@.len(),
    ensures
        v@ == arg_or_empty(arg_views(raw@), i + 1),
{
    if i < raw.len() - 1 {
        raw[i + 1].clone()
    } else {
        String::new()
    }
}

fn apply_model(args: &mut CliArgs, v: &str, bundled: bool)
    ensures
        final(args)@ == select_model(old(args)@, v@, bundled),
{
    if str_equals(v, "json") {
        args.json = true;
    } else if bundled {
        add_warning(args, ParseWarning::ModelFixedByBundle);
    } else {
        let ver = match model_version_from_name(v) {
            Some(x) => x,
            None => {
                add_warning(args, ParseWarning::UnknownModelVersion(String::from_str(v)));
                ModelVersion::V5
            },
        };
        let ms = model_set(ver);
        if !args.det_given {
            args.det_model = Some(model_path_string(ms.det));
        }
        if !args.rec_given {
            args.rec_model = Some(model_path_string(ms.rec));
        }
        if !args.keys_given {
            args.keys = Some(model_path_string(ms.keys));
        }
    }
}

fn apply_backend(args: &mut CliArgs, v: &str)
    ensures
        final(args)@ == select_backend(old(args)@, v@),
{
    match lookup_backend(v) {
        Some(b) => {
            args.backend = b;
        },
        None => {
            args.backend = Backend::CPU;
            add_warning(args, ParseWarning::UnknownBackend(String::from_str(v)));
        },
    }
}

/// Options without a value and the positional argument.
fn apply_plain(args: &mut CliArgs, raw: &[String], i: usize, bundled: bool) -> (handled: bool)
    requires
        i < raw@.len(),
    ensures
        ({
            let a = arg_views(raw@)[i as int];
            &&& handled == (a == "-h"@ || a == "--help"@ || a == "-V"@ || a == "--version"@
                || a == "--list-models"@ || a == "--json"@ || a == "--quiet"@)
            &&& handled ==> (final(args)@, i + 1) == step(old(args)@, arg_views(raw@), i as int, bundled)
            &&& !handled ==> *final(args) == *old(args)
        }),
{
    let a: &str = raw[i].as_str();
    if str_equals(a, "-h") || str_equals(a, "--help") {
        args.help = true;
        true
    } else if str_equals(a, "-V") || str_equals(a, "--version") {
        args.version = true;
        true
    } else if str_equals(a, "--list-models") {
        args.list_models = true;
        true
    } else if str_equals(a, "--json") {
        args.json = true;
        true
    } else if str_equals(a, "--quiet") {
        args.quiet = true;
        true
    } else {
        false
    }
}

/// Reads the argument at `i` and returns the index of the next one.
#[verifier::rlimit(40)]
fn apply_arg(args: &mut CliArgs, raw: &[String], i: usize, bundled: bool) -> (next: usize)
    requires
        i < raw@.len(),
        raw@.len() < usize::MAX,
    ensures
        (final(args)@, next as int) == step(old(args)@, arg_views(raw@), i as int, bundled),
{
    let ghost rv = arg_views(raw@);
    if apply_plain(args, raw, i, bundled) {
        return i + 1;
    }
    let a: &str = raw[i].as_str();
    assert(a@ == rv[i as int]);
    if str_equals(a, "-m") || str_equals(a, "--model") {
        let v = value_after(raw, i);
        apply_model(args, v.as_str(), bundled);
    } else if str_equals(a, "--path") {
        args.image = value_after(raw, i);
    } else if str_equals(a, "--det") {
        if bundled {
            add_warning(args, ParseWarning::DetFixedByBundle);
        } else {
            args.det_model = Some(value_after(raw, i));
            args.det_given = true;
        }
    } else if str_equals(a, "--rec") {
        if bundled {
            add_warning(args, ParseWarning::RecFixedByBundle);
        } else {
            args.rec_model = Some(value_after(raw, i));
            args.rec_given = true;
        }
    } else if str_equals(a, "--keys") {
        if bundled {
            add_warning(args, ParseWarning::KeysFixedByBundle);
        } else {
            args.keys = Some(value_after(raw, i));
            args.keys_given = true;
        }
    } else if str_equals(a, "--ori") {
        args.ori_model = Some(value_after(raw, i));
    } else if str_equals(a, "--output") {
        args.output = Some(value_after(raw, i));
    } else if str_equals(a, "--backend") {
        let v = value_after(raw, i);
        apply_backend(args, v.as_str());
    } else if str_equals(a, "--threads") {
        let v = value_after(raw, i);
        args.threads = parse_u32(v.as_str());
    } else {
        if !(a.unicode_len() > 0 && a.get_char(0) == '-') && args.image.as_str().unicode_len() == 0 {
            args.image = raw[i].clone();
        } else {
            add_warning(args, ParseWarning::UnknownArgument(raw[i].clone()));
        }
        return i + 1;
    }
    i + 2
}

/// Parses a command line (`raw[0]` is the program name); `bundled` says
/// whether the models are embedded in the binary, in which case the model
/// options are ignored with a warning.
pub fn parse_args_for(raw: &[String], bundled: bool) -> (args: CliArgs)
    requires
        raw@.len() < usize::MAX,
    ensures
        args@ == parsed_args(arg_views(raw@), bundled),
{
    let mut args = initial_cli_args(bundled);
    let mut i: usize = 1;
    while i < raw.len()
        invariant
            1 <= i <= raw@.len() + 1,
            raw@.len() < usize::MAX,
            parse_from(args@, arg_views(raw@), i as int, bundled) == parsed_args(arg_views(raw@), bundled),
        decreases raw@.len() + 1 - i,
    {
        i = apply_arg(&mut args, raw, i, bundled);
    }
    args
}

/// Parses a command line (`raw[0]` is the program name) for this build,
/// which reads its models from files.
pub fn parse_args_impl(raw: &[String]) -> (args: CliArgs)
    requires
        raw@.len() < usize::MAX,
    ensures
        args@ == parsed_args(arg_views(raw@), false),
{
    parse_args_for(raw, is_bundled())
}

/// What the program does with its command line before anything else.
#[derive(Debug, PartialEq, Eq)]
pub enum ArgsOutcome {
    /// No argument at all: print the usage text and exit successfully.
    ShowHelp,
    /// No image and nothing else to do: report the missing image and fail.
    /// The parse is kept so that its warnings can still be reported.
    MissingImage(CliArgs),
    /// Go on with these arguments.
    Ready(CliArgs),
}

/// The parse asks for recognition but names no image.
pub open spec fn lacks_image(m: CliModel) -> bool {
    m.image.len() == 0 && !m.help && !m.version && !m.list_models
}

/// Decides what to do with a command line (`raw[0]` is the program name).
pub fn parse_args(raw: &[String]) -> (r: ArgsOutcome)
    requires
        raw@.len() < usize::MAX,
    ensures
        r is ShowHelp <==> raw@.len() < 2,
        r matches ArgsOutcome::MissingImage(a) ==> a@ == parsed_args(arg_views(raw@), false)
            && lacks_image(a@),
        r matches ArgsOutcome::Ready(a) ==> a@ == parsed_args(arg_views(raw@), false)
            && !lacks_image(a@),
        raw@.len() >= 2 ==> (r is MissingImage <==> lacks_image(parsed_args(arg_views(raw@), false))),
        raw@.len() >= 2 ==> (r is Ready <==> !lacks_image(parsed_args(arg_views(raw@), false))),
{
    if raw.len() < 2 {
        return ArgsOutcome::ShowHelp;
    }
    let args = parse_args_impl(raw);
    if args.image.as_str().unicode_len() == 0 && !args.help && !args.version && !args.list_models {
        ArgsOutcome::MissingImage(args)
    } else {
        ArgsOutcome::Ready(args)
    }
}

/// The program's main task.
#[derive(Clone, Copy, Debug, PartialEq, Eq, Structural)]
pub enum Command {
    Help,
    Version,
    ListModels,
    Recognize,
}

/// The decisions the program takes from its arguments before it runs.
#[derive(Debug, PartialEq, Eq)]
pub struct RunPlan {
    pub command: Command,
    /// Thread count handed to the engine, when one was given.
    pub threads: Option<i32>,
    /// Load the embedded models rather than model files.
    pub use_embedded_models: bool,
    /// Suppress the banner printed when the embedded models are loaded.
    pub engine_quiet: bool,
    /// Print progress (model paths, image, saved output) to stderr.
    pub show_progress: bool,
    /// Report the results as JSON rather than text.
    pub json: bool,
    /// Suppress the summary that accompanies the report.
    pub report_quiet: bool,
}

/// The command selected by the flags: help first, then version, then the
/// model listing, else recognition.
pub open spec fn command_of(m: CliModel) -> Command {
    if m.help {
        Command::Help
    } else if m.version {
        Command::Version
    } else if m.list_models {
        Command::ListModels
    } else {
        Command::Recognize
    }
}

/// Derives the run plan from parsed arguments.
pub fn plan_run(args: &CliArgs) -> (p: RunPlan)
    ensures
        p.command == command_of(args@),
        p.threads == (match args.threads {
            Some(n) => Some(n as i32),
            None => None::<i32>,
        }),
        p.use_embedded_models == false,
        p.engine_quiet == (args.json || args.quiet),
        p.show_progress == (!args.quiet && !args.json),
        p.json == args.json,
        p.report_quiet == (if args.json { args.json || args.quiet } else { args.quiet }),
{
    let command = if args.help {
        Command::Help
    } else if args.version {
        Command::Version
    } else if args.list_models {
        Command::ListModels
    } else {
        Command::Recognize
    };
    let threads = match args.threads {
        Some(n) => Some(n as i32),
        None => None,
    };
    RunPlan {
        command,
        threads,
        use_embedded_models: is_bundled(),
        engine_quiet: args.json || args.quiet,
        show_progress: !args.quiet && !args.json,
        json: args.json,
        report_quiet: if args.json { args.json || args.quiet } else { args.quiet },
    }
}

} // verus!
