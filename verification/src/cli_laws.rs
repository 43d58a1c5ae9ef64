//! Properties of command-line parsing that hold for every input.

use vstd::prelude::*;
use crate::backend::{backend_for, lowercase};
use crate::cli::{
    arg_or_empty, det_file, initial_model, is_positional, keys_file, lemma_step_advances,
    model_path, model_version_named, parse_from, parsed_args, rec_file, select_model, step, warn,
    command_of, lacks_image, CliModel, Command, ModelVersion, WarningModel,
};
use crate::number::decimal_u32;
use crate::backend::Backend;

verus! {

/// Reading starts over cleanly after a prefix: what is parsed from position
/// `p.len() + k` of `p + rest` is what is parsed from position `k` of `rest`.
pub proof fn lemma_parse_shift(st: CliModel, p: Seq<Seq<char>>, rest: Seq<Seq<char>>, k: int, b: bool)
    requires
        0 <= k,
    ensures
        parse_from(st, p + rest, p.len() + k, b) == parse_from(st, rest, k, b),
    decreases rest.len() + 2 - k,
{
    let raw = p + rest;
    if k < rest.len() {
        assert(raw[p.len() + k] == rest[k]);
        assert(arg_or_empty(raw, p.len() + k + 1) == arg_or_empty(rest, k + 1));
        let r1 = step(st, raw, p.len() + k, b);
        let r2 = step(st, rest, k, b);
        assert(r1.0 == r2.0 && r1.1 == r2.1 + p.len());
        lemma_step_advances(st, rest, k, b);
        lemma_parse_shift(r2.0, p, rest, r2.1, b);
    }
}

/// Every option name begins with `-`.
proof fn lemma_option_names_start_with_dash()
    ensures
        !is_positional("-h"@),
        !is_positional("--help"@),
        !is_positional("-V"@),
        !is_positional("--version"@),
        !is_positional("--list-models"@),
        !is_positional("--json"@),
        !is_positional("--quiet"@),
        !is_positional("-m"@),
        !is_positional("--model"@),
        !is_positional("--path"@),
        !is_positional("--det"@),
        !is_positional("--rec"@),
        !is_positional("--keys"@),
        !is_positional("--ori"@),
        !is_positional("--output"@),
        !is_positional("--backend"@),
        !is_positional("--threads"@),
{
    reveal_strlit("-h");
    reveal_strlit("--help");
    reveal_strlit("-V");
    reveal_strlit("--version");
    reveal_strlit("--list-models");
    reveal_strlit("--json");
    reveal_strlit("--quiet");
    reveal_strlit("-m");
    reveal_strlit("--model");
    reveal_strlit("--path");
    reveal_strlit("--det");
    reveal_strlit("--rec");
    reveal_strlit("--keys");
    reveal_strlit("--ori");
    reveal_strlit("--output");
    reveal_strlit("--backend");
    reveal_strlit("--threads");
}

/// Option names that share a length still differ.
proof fn lemma_option_names_distinct()
    ensures
        "-m"@ != "-h"@,
        "-m"@ != "-V"@,
        "--model"@ != "--quiet"@,
        "--json"@ != "--help"@,
        "--path"@ != "--help"@,
        "--path"@ != "--json"@,
        "-V"@ != "-h"@,
{
    reveal_strlit("-h");
    reveal_strlit("--help");
    reveal_strlit("-V");
    reveal_strlit("--json");
    reveal_strlit("--quiet");
    reveal_strlit("-m");
    reveal_strlit("--model");
    reveal_strlit("--path");
    assert("-m"@[1] != "-h"@[1]);
    assert("-m"@[1] != "-V"@[1]);
    assert("--model"@[2] != "--quiet"@[2]);
    assert("--json"@[2] != "--help"@[2]);
    assert("--path"@[2] != "--help"@[2]);
    assert("--path"@[2] != "--json"@[2]);
    assert("-V"@[1] != "-h"@[1]);
}

/// `-m json` (or `--model json`) is another way of writing `--json`: in any
/// state, followed by any arguments, the two parse alike.
pub proof fn law_model_json_is_json_flag(st: CliModel, m: Seq<char>, rest: Seq<Seq<char>>, b: bool)
    requires
        m == "-m"@ || m == "--model"@,
    ensures
        parse_from(st, seq![m, "json"@] + rest, 0, b) == parse_from(st, seq!["--json"@] + rest, 0, b),
{
    reveal_strlit("-h");
    reveal_strlit("--help");
    reveal_strlit("-V");
    reveal_strlit("--version");
    reveal_strlit("--list-models");
    reveal_strlit("--json");
    reveal_strlit("--quiet");
    reveal_strlit("-m");
    reveal_strlit("--model");
    lemma_option_names_distinct();
    let raw1 = seq![m, "json"@] + rest;
    let raw2 = seq!["--json"@] + rest;
    assert(raw1[0] == m);
    assert(arg_or_empty(raw1, 1) == "json"@);
    assert(raw2[0] == "--json"@);
    let s = CliModel { json: true, ..st };
    assert(step(st, raw1, 0, b) == (s, 2int));
    assert("--json"@.len() == 6);
    assert("-h"@.len() == 2);
    assert("-V"@.len() == 2);
    assert("--version"@.len() == 9);
    assert("--list-models"@.len() == 13);
    assert(step(st, raw2, 0, b) == (s, 1int));
    lemma_parse_shift(s, seq![m, "json"@], rest, 0, b);
    lemma_parse_shift(s, seq!["--json"@], rest, 0, b);
}

/// `--path <image>` is another way of giving the image as a positional
/// argument: before any image is known, with an image name that does not
/// begin with `-`, the two parse alike, whatever follows.
pub proof fn law_path_option_is_positional_image(
    st: CliModel,
    img: Seq<char>,
    rest: Seq<Seq<char>>,
    b: bool,
)
    requires
        st.image.len() == 0,
        is_positional(img),
    ensures
        parse_from(st, seq!["--path"@, img] + rest, 0, b) == parse_from(st, seq![img] + rest, 0, b),
{
    lemma_option_names_start_with_dash();
    lemma_option_names_distinct();
    reveal_strlit("-h");
    reveal_strlit("-V");
    reveal_strlit("--version");
    reveal_strlit("--list-models");
    reveal_strlit("--quiet");
    reveal_strlit("-m");
    reveal_strlit("--model");
    reveal_strlit("--path");
    let raw1 = seq!["--path"@, img] + rest;
    let raw2 = seq![img] + rest;
    assert(raw1[0] == "--path"@);
    assert(arg_or_empty(raw1, 1) == img);
    assert(raw2[0] == img);
    let s = CliModel { image: img, ..st };
    assert(step(st, raw1, 0, b) == (s, 2int));
    assert(step(st, raw2, 0, b) == (s, 1int));
    lemma_parse_shift(s, seq!["--path"@, img], rest, 0, b);
    lemma_parse_shift(s, seq![img], rest, 0, b);
}

/// Only the first positional argument names the image: once an image is
/// known, a further argument that does not begin with `-` leaves it as it
/// is and is reported as unknown.
pub proof fn law_later_positional_is_reported(st: CliModel, raw: Seq<Seq<char>>, i: int, b: bool)
    requires
        0 <= i < raw.len(),
        st.image.len() > 0,
        is_positional(raw[i]),
    ensures
        step(st, raw, i, b) == (warn(st, WarningModel::UnknownArgument(raw[i])), i + 1),
        step(st, raw, i, b).0.image == st.image,
{
    lemma_option_names_start_with_dash();
}

/// An unknown `--model` version selects the v5 model files (those not named
/// by their own option) and is reported.
pub proof fn law_unknown_model_version_uses_v5(st: CliModel, v: Seq<char>)
    requires
        v != "json"@,
        model_version_named(v) is None,
        !st.det_given,
        !st.rec_given,
        !st.keys_given,
    ensures
        select_model(st, v, false).det_model == Some(model_path(det_file(ModelVersion::V5))),
        select_model(st, v, false).rec_model == Some(model_path(rec_file(ModelVersion::V5))),
        select_model(st, v, false).keys == Some(model_path(keys_file(ModelVersion::V5))),
        select_model(st, v, false).warnings == st.warnings.push(WarningModel::UnknownModelVersion(v)),
{
}

/// Backend names are case-insensitive: two names with the same lowercase
/// form select the same backend.
pub proof fn law_backend_names_ignore_case(s1: Seq<char>, s2: Seq<char>)
    requires
        lowercase(s1) == lowercase(s2),
    ensures
        backend_for(s1) == backend_for(s2),
{
}

/// Option names of equal length still differ; all lengths, for the rest.
proof fn lemma_value_option_names_distinct()
    ensures
        "--det"@ != "--rec"@,
        "--keys"@ != "--help"@,
        "--keys"@ != "--json"@,
        "--keys"@ != "--path"@,
        "--ori"@ != "--det"@,
        "--ori"@ != "--rec"@,
        "--backend"@ != "--version"@,
        "--threads"@ != "--version"@,
        "--threads"@ != "--backend"@,
        "-h"@.len() == 2,
        "--help"@.len() == 6,
        "-V"@.len() == 2,
        "--version"@.len() == 9,
        "--list-models"@.len() == 13,
        "--json"@.len() == 6,
        "--quiet"@.len() == 7,
        "-m"@.len() == 2,
        "--model"@.len() == 7,
        "--path"@.len() == 6,
        "--det"@.len() == 5,
        "--rec"@.len() == 5,
        "--keys"@.len() == 6,
        "--ori"@.len() == 5,
        "--output"@.len() == 8,
        "--backend"@.len() == 9,
        "--threads"@.len() == 9,
{
    reveal_strlit("-h");
    reveal_strlit("--help");
    reveal_strlit("-V");
    reveal_strlit("--version");
    reveal_strlit("--list-models");
    reveal_strlit("--json");
    reveal_strlit("--quiet");
    reveal_strlit("-m");
    reveal_strlit("--model");
    reveal_strlit("--path");
    reveal_strlit("--det");
    reveal_strlit("--rec");
    reveal_strlit("--keys");
    reveal_strlit("--ori");
    reveal_strlit("--output");
    reveal_strlit("--backend");
    reveal_strlit("--threads");
    assert("--det"@[2] != "--rec"@[2]);
    assert("--keys"@[2] != "--help"@[2]);
    assert("--keys"@[2] != "--json"@[2]);
    assert("--keys"@[2] != "--path"@[2]);
    assert("--ori"@[2] != "--det"@[2]);
    assert("--ori"@[2] != "--rec"@[2]);
    assert("--backend"@[2] != "--version"@[2]);
    assert("--threads"@[2] != "--version"@[2]);
    assert("--threads"@[2] != "--backend"@[2]);
}

/// An option that takes a value.
pub open spec fn takes_value(a: Seq<char>) -> bool {
    ||| a == "-m"@
    ||| a == "--model"@
    ||| a == "--path"@
    ||| a == "--det"@
    ||| a == "--rec"@
    ||| a == "--keys"@
    ||| a == "--ori"@
    ||| a == "--output"@
    ||| a == "--backend"@
    ||| a == "--threads"@
}

/// An option that takes a value consumes the argument after it, whatever
/// that argument says (`--path --json` names the image `--json`); every
/// other argument is read on its own.
pub proof fn law_value_options_consume_next(st: CliModel, raw: Seq<Seq<char>>, i: int, b: bool)
    requires
        0 <= i < raw.len(),
    ensures
        step(st, raw, i, b).1 == if takes_value(raw[i]) { i + 2 } else { i + 1 },
{
    lemma_option_names_distinct();
    lemma_value_option_names_distinct();
}

/// The model files change only through `-m`/`--model`, `--det`, `--rec`
/// and `--keys`: any other argument leaves them as they are. With the
/// initial state, this is why the v5 files are the default.
pub proof fn law_only_model_options_change_model_files(st: CliModel, raw: Seq<Seq<char>>, i: int, b: bool)
    requires
        0 <= i < raw.len(),
        raw[i] != "-m"@,
        raw[i] != "--model"@,
        raw[i] != "--det"@,
        raw[i] != "--rec"@,
        raw[i] != "--keys"@,
    ensures
        step(st, raw, i, b).0.det_model == st.det_model,
        step(st, raw, i, b).0.rec_model == st.rec_model,
        step(st, raw, i, b).0.keys == st.keys,
{
}

/// `--json` and `--quiet` are independent: only `--quiet` sets quiet, and
/// only `--json` or `-m json` (`--model json`) sets json; neither flag is
/// ever cleared.
pub proof fn law_json_and_quiet_are_independent(st: CliModel, raw: Seq<Seq<char>>, i: int, b: bool)
    requires
        0 <= i < raw.len(),
    ensures
        step(st, raw, i, b).0.quiet == (st.quiet || raw[i] == "--quiet"@),
        step(st, raw, i, b).0.json == (st.json || raw[i] == "--json"@
            || ((raw[i] == "-m"@ || raw[i] == "--model"@) && arg_or_empty(raw, i + 1) == "json"@)),
{
    lemma_option_names_distinct();
    lemma_value_option_names_distinct();
}

/// With embedded models, no argument changes the model files.
proof fn lemma_bundled_step_keeps_model_files(st: CliModel, raw: Seq<Seq<char>>, i: int)
    requires
        0 <= i < raw.len(),
    ensures
        step(st, raw, i, true).0.det_model == st.det_model,
        step(st, raw, i, true).0.rec_model == st.rec_model,
        step(st, raw, i, true).0.keys == st.keys,
{
}

proof fn lemma_bundled_parse_keeps_model_files(st: CliModel, raw: Seq<Seq<char>>, i: int)
    ensures
        parse_from(st, raw, i, true).det_model == st.det_model,
        parse_from(st, raw, i, true).rec_model == st.rec_model,
        parse_from(st, raw, i, true).keys == st.keys,
    decreases raw.len() + 2 - i,
{
    if 0 <= i < raw.len() {
        let r = step(st, raw, i, true);
        lemma_step_advances(st, raw, i, true);
        lemma_bundled_step_keeps_model_files(st, raw, i);
        lemma_bundled_parse_keeps_model_files(r.0, raw, r.1);
    }
}

/// When the models are embedded, no command line names model files: the
/// model options are ignored (and reported).
pub proof fn law_bundled_ignores_model_options(raw: Seq<Seq<char>>)
    ensures
        parsed_args(raw, true).det_model is None,
        parsed_args(raw, true).rec_model is None,
        parsed_args(raw, true).keys is None,
{
    lemma_bundled_parse_keeps_model_files(initial_model(true), raw, 1);
}

/// On a whole command line, `--path <image>` right after the program name
/// parses exactly like the positional `<image>` there, whatever follows,
/// for an image name that does not begin with `-`.
pub proof fn law_path_option_whole_line(prog: Seq<char>, img: Seq<char>, rest: Seq<Seq<char>>, b: bool)
    requires
        is_positional(img),
    ensures
        parsed_args(seq![prog, "--path"@, img] + rest, b) == parsed_args(seq![prog, img] + rest, b),
{
    let st = initial_model(b);
    let t1 = seq!["--path"@, img] + rest;
    let t2 = seq![img] + rest;
    assert(seq![prog, "--path"@, img] + rest =~= seq![prog] + t1);
    assert(seq![prog, img] + rest =~= seq![prog] + t2);
    lemma_parse_shift(st, seq![prog], t1, 0, b);
    lemma_parse_shift(st, seq![prog], t2, 0, b);
    law_path_option_is_positional_image(st, img, rest, b);
}

/// On a whole command line, `-m json` (or `--model json`) right after the
/// program name parses exactly like `--json` there, whatever follows.
pub proof fn law_model_json_whole_line(prog: Seq<char>, m: Seq<char>, rest: Seq<Seq<char>>, b: bool)
    requires
        m == "-m"@ || m == "--model"@,
    ensures
        parsed_args(seq![prog, m, "json"@] + rest, b) == parsed_args(seq![prog, "--json"@] + rest, b),
{
    let st = initial_model(b);
    let t1 = seq![m, "json"@] + rest;
    let t2 = seq!["--json"@] + rest;
    assert(seq![prog, m, "json"@] + rest =~= seq![prog] + t1);
    assert(seq![prog, "--json"@] + rest =~= seq![prog] + t2);
    lemma_parse_shift(st, seq![prog], t1, 0, b);
    lemma_parse_shift(st, seq![prog], t2, 0, b);
    law_model_json_is_json_flag(st, m, rest, b);
}

/// A model file named by its own option (`--det`, `--rec`, `--keys`)
/// overrides what `--model` selects, before or after it: once named, only
/// its own option changes it again.
pub proof fn law_named_model_files_take_precedence(st: CliModel, raw: Seq<Seq<char>>, i: int, b: bool)
    requires
        0 <= i < raw.len(),
    ensures
        st.det_given && raw[i] != "--det"@ ==> step(st, raw, i, b).0.det_model == st.det_model
            && step(st, raw, i, b).0.det_given,
        st.rec_given && raw[i] != "--rec"@ ==> step(st, raw, i, b).0.rec_model == st.rec_model
            && step(st, raw, i, b).0.rec_given,
        st.keys_given && raw[i] != "--keys"@ ==> step(st, raw, i, b).0.keys == st.keys
            && step(st, raw, i, b).0.keys_given,
        !b && raw[i] == "--det"@ ==> step(st, raw, i, b).0.det_model == Some(arg_or_empty(raw, i + 1))
            && step(st, raw, i, b).0.det_given,
{
    lemma_option_names_distinct();
    lemma_value_option_names_distinct();
}

proof fn lemma_parse_keeps_cpu(st: CliModel, raw: Seq<Seq<char>>, i: int, b: bool)
    requires
        st.backend == Backend::CPU,
        forall|j: int| i <= j < raw.len() ==> raw[j] != "--backend"@,
    ensures
        parse_from(st, raw, i, b).backend == Backend::CPU,
    decreases raw.len() + 2 - i,
{
    if 0 <= i < raw.len() {
        let r = step(st, raw, i, b);
        lemma_step_advances(st, raw, i, b);
        assert(r.0.backend == Backend::CPU);
        lemma_parse_keeps_cpu(r.0, raw, r.1, b);
    }
}

/// The backend is the CPU unless the command line asks for another: a
/// command line in which no argument is `--backend` selects the CPU.
pub proof fn law_default_backend_is_cpu(raw: Seq<Seq<char>>, b: bool)
    requires
        forall|j: int| 1 <= j < raw.len() ==> raw[j] != "--backend"@,
    ensures
        parsed_args(raw, b).backend == Backend::CPU,
{
    lemma_parse_keeps_cpu(initial_model(b), raw, 1, b);
}

/// No model option on the command line.
pub open spec fn no_model_option(raw: Seq<Seq<char>>, i: int) -> bool {
    forall|j: int|
        i <= j < raw.len() ==> {
            &&& raw[j] != "-m"@
            &&& raw[j] != "--model"@
            &&& raw[j] != "--det"@
            &&& raw[j] != "--rec"@
            &&& raw[j] != "--keys"@
        }
}

proof fn lemma_parse_keeps_model_files(st: CliModel, raw: Seq<Seq<char>>, i: int, b: bool)
    requires
        no_model_option(raw, i),
    ensures
        parse_from(st, raw, i, b).det_model == st.det_model,
        parse_from(st, raw, i, b).rec_model == st.rec_model,
        parse_from(st, raw, i, b).keys == st.keys,
    decreases raw.len() + 2 - i,
{
    if 0 <= i < raw.len() {
        let r = step(st, raw, i, b);
        lemma_step_advances(st, raw, i, b);
        law_only_model_options_change_model_files(st, raw, i, b);
        lemma_parse_keeps_model_files(r.0, raw, r.1, b);
    }
}

/// Without model options, the model files are the v5 ones in the `models`
/// directory (none when the models are embedded).
pub proof fn law_default_model_files_are_v5(raw: Seq<Seq<char>>, b: bool)
    requires
        no_model_option(raw, 1),
    ensures
        !b ==> parsed_args(raw, b).det_model == Some("models/PP-OCRv5_mobile_det.mnn"@),
        !b ==> parsed_args(raw, b).rec_model == Some("models/PP-OCRv5_mobile_rec.mnn"@),
        !b ==> parsed_args(raw, b).keys == Some("models/ppocr_keys_v5.txt"@),
        b ==> parsed_args(raw, b).det_model is None,
{
    lemma_parse_keeps_model_files(initial_model(b), raw, 1, b);
    reveal_strlit("models/");
    reveal_strlit("PP-OCRv5_mobile_det.mnn");
    reveal_strlit("PP-OCRv5_mobile_rec.mnn");
    reveal_strlit("ppocr_keys_v5.txt");
    reveal_strlit("models/PP-OCRv5_mobile_det.mnn");
    reveal_strlit("models/PP-OCRv5_mobile_rec.mnn");
    reveal_strlit("models/ppocr_keys_v5.txt");
    assert(model_path(det_file(ModelVersion::V5)) =~= "models/PP-OCRv5_mobile_det.mnn"@);
    assert(model_path(rec_file(ModelVersion::V5)) =~= "models/PP-OCRv5_mobile_rec.mnn"@);
    assert(model_path(keys_file(ModelVersion::V5)) =~= "models/ppocr_keys_v5.txt"@);
}

/// The task follows the flags in a fixed priority: help wins over
/// everything, then the version, then the model listing; recognition runs
/// only when none of the three was asked for, whatever image was given.
pub proof fn law_command_priority(m: CliModel)
    ensures
        m.help ==> command_of(m) == Command::Help,
        !m.help && m.version ==> command_of(m) == Command::Version,
        !m.help && !m.version && m.list_models ==> command_of(m) == Command::ListModels,
        command_of(m) == Command::Recognize <==> (!m.help && !m.version && !m.list_models),
{
}

/// Each flag is set by its own option names alone and never cleared:
/// `-h`/`--help` set help, `-V`/`--version` the version, `--list-models`
/// the listing.
pub proof fn law_flags_follow_their_options(st: CliModel, raw: Seq<Seq<char>>, i: int, b: bool)
    requires
        0 <= i < raw.len(),
    ensures
        step(st, raw, i, b).0.help == (st.help || raw[i] == "-h"@ || raw[i] == "--help"@),
        step(st, raw, i, b).0.version == (st.version || raw[i] == "-V"@ || raw[i] == "--version"@),
        step(st, raw, i, b).0.list_models == (st.list_models || raw[i] == "--list-models"@),
{
    lemma_option_names_distinct();
    lemma_value_option_names_distinct();
}

/// Each option with a value stores the next argument (the empty string when
/// there is none) in its own field: `--path` the image, `--ori` the
/// orientation model, `--output` the annotated image, `--threads` the
/// thread count when it is a decimal `u32`, and none when it is not.
pub proof fn law_value_options_store_their_value(st: CliModel, raw: Seq<Seq<char>>, i: int, b: bool)
    requires
        0 <= i < raw.len(),
    ensures
        raw[i] == "--path"@ ==> step(st, raw, i, b).0.image == arg_or_empty(raw, i + 1),
        raw[i] == "--ori"@ ==> step(st, raw, i, b).0.ori_model == Some(arg_or_empty(raw, i + 1)),
        raw[i] == "--output"@ ==> step(st, raw, i, b).0.output == Some(arg_or_empty(raw, i + 1)),
        raw[i] == "--threads"@ ==> step(st, raw, i, b).0.threads == decimal_u32(arg_or_empty(raw, i + 1)),
        raw[i] != "--path"@ && !is_positional(raw[i]) ==> step(st, raw, i, b).0.image == st.image,
        raw[i] != "--ori"@ ==> step(st, raw, i, b).0.ori_model == st.ori_model,
        raw[i] != "--output"@ ==> step(st, raw, i, b).0.output == st.output,
        raw[i] != "--threads"@ ==> step(st, raw, i, b).0.threads == st.threads,
{
    lemma_option_names_distinct();
    lemma_value_option_names_distinct();
}

/// `-m v4`, `-m v5` and `-m v6` select that generation's three files in
/// the `models` directory (each one not already named by its own option).
pub proof fn law_model_option_files(st: CliModel)
    requires
        !st.det_given,
        !st.rec_given,
        !st.keys_given,
    ensures
        select_model(st, "v4"@, false).det_model == Some("models/ch_PP-OCRv4_det_infer.mnn"@),
        select_model(st, "v4"@, false).rec_model == Some("models/ch_PP-OCRv4_rec_infer.mnn"@),
        select_model(st, "v4"@, false).keys == Some("models/ppocr_keys_v4.txt"@),
        select_model(st, "v5"@, false).det_model == Some("models/PP-OCRv5_mobile_det.mnn"@),
        select_model(st, "v5"@, false).rec_model == Some("models/PP-OCRv5_mobile_rec.mnn"@),
        select_model(st, "v5"@, false).keys == Some("models/ppocr_keys_v5.txt"@),
        select_model(st, "v6"@, false).det_model == Some("models/PP-OCRv6_small_det.mnn"@),
        select_model(st, "v6"@, false).rec_model == Some("models/PP-OCRv6_small_rec.mnn"@),
        select_model(st, "v6"@, false).keys == Some("models/ppocr_keys_v6.txt"@),
        select_model(st, "v4"@, false).warnings == st.warnings,
        select_model(st, "v6"@, false).warnings == st.warnings,
{
    reveal_strlit("json");
    reveal_strlit("v4");
    reveal_strlit("v5");
    reveal_strlit("v6");
    assert("v5"@[1] != "v4"@[1]);
    assert("v6"@[1] != "v4"@[1]);
    assert("v6"@[1] != "v5"@[1]);
    assert("v4"@.len() != "json"@.len());
    assert("v5"@.len() != "json"@.len());
    assert("v6"@.len() != "json"@.len());
    reveal_strlit("models/");
    reveal_strlit("ch_PP-OCRv4_det_infer.mnn");
    reveal_strlit("ch_PP-OCRv4_rec_infer.mnn");
    reveal_strlit("ppocr_keys_v4.txt");
    reveal_strlit("PP-OCRv5_mobile_det.mnn");
    reveal_strlit("PP-OCRv5_mobile_rec.mnn");
    reveal_strlit("ppocr_keys_v5.txt");
    reveal_strlit("PP-OCRv6_small_det.mnn");
    reveal_strlit("PP-OCRv6_small_rec.mnn");
    reveal_strlit("ppocr_keys_v6.txt");
    reveal_strlit("models/ch_PP-OCRv4_det_infer.mnn");
    reveal_strlit("models/ch_PP-OCRv4_rec_infer.mnn");
    reveal_strlit("models/ppocr_keys_v4.txt");
    reveal_strlit("models/PP-OCRv5_mobile_det.mnn");
    reveal_strlit("models/PP-OCRv5_mobile_rec.mnn");
    reveal_strlit("models/ppocr_keys_v5.txt");
    reveal_strlit("models/PP-OCRv6_small_det.mnn");
    reveal_strlit("models/PP-OCRv6_small_rec.mnn");
    reveal_strlit("models/ppocr_keys_v6.txt");
    assert(model_path(det_file(ModelVersion::V4)) =~= "models/ch_PP-OCRv4_det_infer.mnn"@);
    assert(model_path(rec_file(ModelVersion::V4)) =~= "models/ch_PP-OCRv4_rec_infer.mnn"@);
    assert(model_path(keys_file(ModelVersion::V4)) =~= "models/ppocr_keys_v4.txt"@);
    assert(model_path(det_file(ModelVersion::V5)) =~= "models/PP-OCRv5_mobile_det.mnn"@);
    assert(model_path(rec_file(ModelVersion::V5)) =~= "models/PP-OCRv5_mobile_rec.mnn"@);
    assert(model_path(keys_file(ModelVersion::V5)) =~= "models/ppocr_keys_v5.txt"@);
    assert(model_path(det_file(ModelVersion::V6)) =~= "models/PP-OCRv6_small_det.mnn"@);
    assert(model_path(rec_file(ModelVersion::V6)) =~= "models/PP-OCRv6_small_rec.mnn"@);
    assert(model_path(keys_file(ModelVersion::V6)) =~= "models/ppocr_keys_v6.txt"@);
}

/// A command line lacks an image exactly when it names none and asks for
/// neither the help, the version nor the model listing.
pub proof fn law_missing_image(m: CliModel)
    ensures
        lacks_image(m) <==> (m.image.len() == 0 && !m.help && !m.version && !m.list_models),
{
}

} // verus!
