//! Where a recording goes: the save directory, the two file names of a
//! session, and the codec both files are written with.

use vstd::prelude::*;
use vstd::string::*;

verus! {

/// The save directory as configured; a leading `~` stands for the home
/// directory of the user.
pub const SAVE_DIR_BASE: &'static str = "~/Desktop/recordings";

/// The pattern of the time stamp that names the files of a session:
/// year, month, day, an underscore, hour, minute, second.
pub const TIMESTAMP_PATTERN: &'static str = "%Y%m%d_%H%M%S";

/// What follows the time stamp in the name of the temporary file.
pub const TEMPORARY_SUFFIX: &'static str = "_temp.avi";

/// What follows the time stamp in the name of the final file.
pub const FINAL_SUFFIX: &'static str = ".avi";

/// The directory and the two file names of one session.
#[derive(Clone, Debug, PartialEq, Eq)]
pub struct RecordingPlan {
    /// The save directory, home directory expanded.
    pub directory: String,
    /// Name of the file the capture loop writes to.
    pub temporary_name: String,
    /// Name of the file the re-encoder writes to.
    pub final_name: String,
}

/// Whether `expanded` is what `input` may become when a leading `~` is
/// replaced by a home directory: either `input` itself, or, where `input`
/// begins with a `~` that stands alone or before a separator, some
/// directory followed by the rest of `input`.
pub open spec fn is_tilde_expansion(input: Seq<char>, expanded: Seq<char>) -> bool {
    ||| expanded == input
    ||| {
        &&& input.len() > 0
        &&& input[0] == '~'
        &&& input.len() == 1 || input[1] == '/' || input[1] == '\\'
        &&& exists|home: Seq<char>| expanded == home + input.skip(1)
    }
}

/// Name of the temporary file of the session stamped `stamp`.
pub open spec fn temporary_name_spec(stamp: Seq<char>) -> Seq<char> {
    stamp + TEMPORARY_SUFFIX@
}

/// Name of the final file of the session stamped `stamp`.
pub open spec fn final_name_spec(stamp: Seq<char>) -> Seq<char> {
    stamp + FINAL_SUFFIX@
}

/// The four characters that name the codec of both video files.
pub open spec fn fourcc_spec() -> (char, char, char, char) {
    ('X', 'V', 'I', 'D')
}

/// The four characters that name the codec of both video files.
pub fn fourcc() -> (code: (char, char, char, char))
    ensures
        code == fourcc_spec(),
{
    ('X', 'V', 'I', 'D')
}

/// `shellexpand::tilde`: replaces a leading `~` by the home directory of
/// the user. The home directory comes from the environment, so the
/// contract only says what the two possible shapes of the result are: the
/// input unchanged (no leading `~`, a `~user` form, or no home directory to
/// be found), or a directory followed by everything after the `~`.
#[verifier::external_body]
fn expand_tilde(input: &str) -> (expanded: String)
    ensures
        is_tilde_expansion(input@, expanded@),
{
    shellexpand::tilde(input).into_owned()
}

/// `chrono::Local::now`, formatted by `chrono::DateTime::format` and turned
/// into a `String`. The result depends on the clock and the time zone of
/// the machine, so nothing is claimed of it. The pattern is pinned to the
/// one the recorder uses, which holds no specifier that formatting rejects.
#[verifier::external_body]
fn local_time_stamp(pattern: &str) -> (stamp: String)
    requires
        pattern@ == TIMESTAMP_PATTERN@,
{
    chrono::Local::now().format(pattern).to_string()
}

/// The directory `base` with a leading `~` replaced by the home directory
/// of the user, where there is one to be found.
pub fn expand_save_directory(base: &str) -> (directory: String)
    ensures
        is_tilde_expansion(base@, directory@),
{
    expand_tilde(base)
}

/// The plan of the session stamped `stamp` that saves into `directory`.
pub fn plan_for(directory: String, stamp: &str) -> (plan: RecordingPlan)
    ensures
        plan.directory@ == directory@,
        plan.temporary_name@ == temporary_name_spec(stamp@),
        plan.final_name@ == final_name_spec(stamp@),
{
    let mut temporary_name = stamp.to_owned();
    temporary_name.append(TEMPORARY_SUFFIX);
    let mut final_name = stamp.to_owned();
    final_name.append(FINAL_SUFFIX);
    RecordingPlan { directory, temporary_name, final_name }
}

/// The plan of a session that starts now: the configured save directory
/// with the home directory filled in, and two file names that share the
/// current local time as their stem.
pub fn plan_recording() -> (plan: RecordingPlan)
    ensures
        is_tilde_expansion(SAVE_DIR_BASE@, plan.directory@),
        exists|stamp: Seq<char>|
            plan.temporary_name@ == #[trigger] temporary_name_spec(stamp) && plan.final_name@
                == final_name_spec(stamp),
{
    let stamp = local_time_stamp(TIMESTAMP_PATTERN);
    let directory = expand_save_directory(SAVE_DIR_BASE);
    let plan = plan_for(directory, stamp.as_str());
    assert(plan.temporary_name@ == temporary_name_spec(stamp@));
    plan
}

/// The two file names of a session differ, so the re-encoder never reads
/// the file it is writing.
pub proof fn law_names_differ(stamp: Seq<char>)
    ensures
        temporary_name_spec(stamp) != final_name_spec(stamp),
        temporary_name_spec(stamp).len() == stamp.len() + 9,
        final_name_spec(stamp).len() == stamp.len() + 4,
{
    reveal_strlit("_temp.avi");
    reveal_strlit(".avi");
    assert(temporary_name_spec(stamp).len() == stamp.len() + 9);
    assert(final_name_spec(stamp).len() == stamp.len() + 4);
}

} // verus!
