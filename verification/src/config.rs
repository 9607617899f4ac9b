//! Settings, and the names of saved files.
use vstd::prelude::*;
use vstd::string::*;

verus! {

/// Format of a recording.
#[derive(Clone, Copy, PartialEq, Eq, Structural, Debug)]
pub enum VideoFormat {
    Mp4,
    Gif,
}

/// What the program remembers between runs.
#[derive(Clone, Copy, PartialEq, Eq, Structural, Debug)]
pub struct Settings {
    pub autostart: bool,
    pub prtsc_warning_shown: bool,
    pub video_format: VideoFormat,
}

impl Settings {
    /// The settings of a first run.
    pub open spec fn initial() -> Settings {
        Settings {
            autostart: true,
            prtsc_warning_shown: false,
            video_format: VideoFormat::Mp4,
        }
    }

    /// The settings to run with: those that were read, or the initial ones where none
    /// could be.
    pub fn load(read: Option<Settings>) -> (settings: Settings)
        ensures
            settings == (match read {
                Some(s) => s,
                None => Settings::initial(),
            }),
    {
        match read {
            Some(settings) => settings,
            None => Settings::default(),
        }
    }
}

impl Default for Settings {
    fn default() -> (settings: Settings)
        ensures
            settings == Settings::initial(),
    {
        Settings {
            autostart: true,
            prtsc_warning_shown: false,
            video_format: VideoFormat::Mp4,
        }
    }
}

/// The file name extension of a format.
pub open spec fn extension(format: VideoFormat) -> Seq<char> {
    match format {
        VideoFormat::Mp4 => "mp4"@,
        VideoFormat::Gif => "gif"@,
    }
}

/// The file name extension of a format.
pub fn video_ext(format: VideoFormat) -> (ext: &'static str)
    ensures
        ext@ == extension(format),
{
    match format {
        VideoFormat::Mp4 => "mp4",
        VideoFormat::Gif => "gif",
    }
}

/// A decimal digit.
pub open spec fn is_digit(c: char) -> bool {
    '0' <= c && c <= '9'
}

/// The number that two digits of the text stand for.
pub open spec fn two_digits(s: Seq<char>, i: int) -> int {
    10 * (s[i] as int - 48) + (s[i + 1] as int - 48)
}

/// The text is a point in time, down to the second: a year of four or more characters,
/// month, day, hour, minute and second of two digits each, with `-` between them and `_`
/// between day and hour.  A year of more than four digits starts with `+`, and a leap second
/// counts as the sixtieth.
pub open spec fn is_timestamp(s: Seq<char>) -> bool {
    let n = s.len() as int;
    &&& n >= 19
    &&& s[n - 15] == '-' && s[n - 12] == '-' && s[n - 9] == '_' && s[n - 6] == '-' && s[n - 3]
        == '-'
    &&& forall|i: int|
        0 <= i < n && i != n - 15 && i != n - 12 && i != n - 9 && i != n - 6 && i != n - 3
            ==> is_digit(#[trigger] s[i]) || (i == 0 && n > 19 && s[i] == '+')
    &&& 1 <= two_digits(s, n - 14) <= 12
    &&& 1 <= two_digits(s, n - 11) <= 31
    &&& 0 <= two_digits(s, n - 8) <= 23
    &&& 0 <= two_digits(s, n - 5) <= 59
    &&& 0 <= two_digits(s, n - 2) <= 60
}

/// Calls `chrono::Local::now` and formats the result with
/// `chrono::DateTime::format`.  Claims only that the result is a timestamp: which one it
/// is depends on the clock and on the time zone of the machine.
#[verifier::external_body]
fn local_time(format: &str) -> (s: String)
    requires
        format@ == "%Y-%m-%d_%H-%M-%S"@,
    ensures
        is_timestamp(s@),
{
    chrono::Local::now().format(format).to_string()
}

/// The name of a file that was made at the given time.
pub open spec fn file_name(stamp: Seq<char>, ext: Seq<char>) -> Seq<char> {
    "glimt_"@ + stamp + "."@ + ext
}

/// The name of a file that was made at the given time.
pub fn filename(stamp: &str, ext: &str) -> (name: String)
    ensures
        name@ == file_name(stamp@, ext@),
{
    let mut name = String::from_str("glimt_");
    name.append(stamp);
    name.append(".");
    name.append(ext);
    name
}

/// The name of a file that is made now.
pub fn filename_now(ext: &str) -> (name: String)
    ensures
        exists|stamp: Seq<char>| is_timestamp(stamp) && name@ == #[trigger] file_name(stamp, ext@),
{
    let stamp = local_time("%Y-%m-%d_%H-%M-%S");
    let name = filename(stamp.as_str(), ext);
    assert(is_timestamp(stamp@) && name@ == file_name(stamp@, ext@));
    name
}

/// The name of the file that a recording is written to until it is done.
pub open spec fn temp_file_name(ext: Seq<char>) -> Seq<char> {
    ".glimt_rec_tmp."@ + ext
}

/// The name of the file that a recording is written to until it is done.
pub fn temp_filename(ext: &str) -> (name: String)
    ensures
        name@ == temp_file_name(ext@),
{
    let mut name = String::from_str(".glimt_rec_tmp.");
    name.append(ext);
    name
}

/// A saved file keeps its name within its folder: no character of it separates folders,
/// unless the extension has one.
pub proof fn law_filename_has_no_separator(stamp: Seq<char>, ext: Seq<char>, c: char)
    requires
        is_timestamp(stamp),
        c == '/' || c == '\\' || c == ':',
        !ext.contains(c),
    ensures
        !file_name(stamp, ext).contains(c),
{
    reveal_strlit("glimt_");
    reveal_strlit(".");
    let name = file_name(stamp, ext);
    let n = stamp.len() as int;
    assert forall|i: int| 0 <= i < name.len() implies name[i] != c by {
        if i < 6 {
            assert(name[i] == "glimt_"@[i]);
        } else if i < 6 + n {
            assert(name[i] == stamp[i - 6]);
        } else if i == 6 + n {
            assert(name[i] == "."@[0]);
        } else {
            assert(name[i] == ext[i - 7 - n]);
            assert(ext.contains(ext[i - 7 - n]));
        }
    }
}

/// Files made at different times have different names.
pub proof fn law_filenames_differ(a: Seq<char>, b: Seq<char>, ext: Seq<char>)
    requires
        file_name(a, ext) == file_name(b, ext),
    ensures
        a == b,
{
    reveal_strlit("glimt_");
    reveal_strlit(".");
    let (x, y) = (file_name(a, ext), file_name(b, ext));
    assert(x.len() == 7 + a.len() + ext.len());
    assert(y.len() == 7 + b.len() + ext.len());
    assert(x.subrange(6, 6 + a.len() as int) =~= a);
    assert(y.subrange(6, 6 + b.len() as int) =~= b);
}

/// A recording under way never has the name of a finished file.
pub proof fn law_temp_name_is_free(stamp: Seq<char>, ext: Seq<char>, other: Seq<char>)
    ensures
        temp_file_name(ext) != file_name(stamp, other),
{
    reveal_strlit("glimt_");
    reveal_strlit(".glimt_rec_tmp.");
    assert(temp_file_name(ext)[0] == '.');
    assert(file_name(stamp, other)[0] == 'g');
}

/// A first run starts with the system, has not warned yet, and records MP4.
pub proof fn law_initial_settings()
    ensures
        Settings::initial().autostart,
        !Settings::initial().prtsc_warning_shown,
        Settings::initial().video_format is Mp4,
{
}

/// The name of a saved file is the program's name, an underscore, the time, a dot and the
/// extension, and nothing else.
pub proof fn law_filename_parts(stamp: Seq<char>, ext: Seq<char>)
    ensures
        ({
            let (name, n) = (file_name(stamp, ext), stamp.len() as int);
            &&& name.len() == 7 + n + ext.len()
            &&& name.take(6) == seq!['g', 'l', 'i', 'm', 't', '_']
            &&& name.subrange(6, 6 + n) == stamp
            &&& name[6 + n] == '.'
            &&& name.skip(7 + n) == ext
        }),
{
    reveal_strlit("glimt_");
    reveal_strlit(".");
    let (name, n) = (file_name(stamp, ext), stamp.len() as int);
    assert(name.take(6) =~= seq!['g', 'l', 'i', 'm', 't', '_']);
    assert(name.subrange(6, 6 + n) =~= stamp);
    assert(name.skip(7 + n) =~= ext);
}

/// A recording under way is in a hidden file of one name for each extension.
pub proof fn law_temp_name_parts(ext: Seq<char>)
    ensures
        ({
            let name = temp_file_name(ext);
            &&& name.len() == 15 + ext.len()
            &&& name[0] == '.' && name[14] == '.'
            &&& name.subrange(1, 7) == seq!['g', 'l', 'i', 'm', 't', '_']
            &&& name.subrange(7, 14) == seq!['r', 'e', 'c', '_', 't', 'm', 'p']
            &&& name.skip(15) == ext
        }),
{
    reveal_strlit(".glimt_rec_tmp.");
    let name = temp_file_name(ext);
    assert(name.subrange(1, 7) =~= seq!['g', 'l', 'i', 'm', 't', '_']);
    assert(name.subrange(7, 14) =~= seq!['r', 'e', 'c', '_', 't', 'm', 'p']);
    assert(name.skip(15) =~= ext);
}

/// A format is told by its extension.
pub proof fn law_extensions()
    ensures
        extension(VideoFormat::Mp4) == seq!['m', 'p', '4'],
        extension(VideoFormat::Gif) == seq!['g', 'i', 'f'],
{
    reveal_strlit("mp4");
    reveal_strlit("gif");
    assert("mp4"@ =~= seq!['m', 'p', '4']);
    assert("gif"@ =~= seq!['g', 'i', 'f']);
}

} // verus!
