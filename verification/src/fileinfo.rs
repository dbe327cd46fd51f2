//! What the footer says of the selected entry: its permissions, its owner,
//! its size, when it was changed, and its media type.

use vstd::prelude::*;
use vstd::string::*;
use crate::text::push_signed;
use crate::text::push_two_digits;
use crate::text::signed_decimal;
use crate::text::two_digits;

verus! {

/// The permissions of a file mode as text, as `unix_mode::to_string` gives
/// them.
pub uninterp spec fn mode_text(mode: u32) -> Seq<char>;

/// The media type that the extension of a path stands for, as
/// `mime_guess::from_path` gives it first.
pub uninterp spec fn mime_of(path: Seq<char>) -> Option<Seq<char>>;

/// Year, month, day, hour, minute and second in UTC of a time given in
/// seconds since 1970, as `time::OffsetDateTime::from_unix_timestamp` gives
/// them; none for a time that it does not take.
pub uninterp spec fn civil_of(seconds: int) -> Option<(int, int, int, int, int, int)>;

/// Calls `unix_mode::to_string`; the contract only names what it returns.
#[verifier::external_body]
pub(crate) fn mode_string(mode: u32) -> (r: String)
    ensures
        r@ == mode_text(mode),
{
    unix_mode::to_string(mode)
}

/// Calls `mime_guess::from_path` and takes the first media type of the
/// guess; the contract only names what comes back.
#[verifier::external_body]
pub(crate) fn mime_type(path: &str) -> (r: Option<String>)
    ensures
        crate::text::opt_view(r) == mime_of(path@),
{
    match mime_guess::from_path(path).first_raw() {
        Some(mime) => Some(mime.to_string()),
        None => None,
    }
}

/// A point in time by the calendar and the clock, in UTC.
#[derive(Clone, Copy, Debug, PartialEq, Eq, Structural)]
pub struct Civil {
    pub year: i32,
    pub month: u8,
    pub day: u8,
    pub hour: u8,
    pub minute: u8,
    pub second: u8,
}

impl Civil {
    /// The six numbers.
    pub open spec fn numbers(self) -> (int, int, int, int, int, int) {
        (
            self.year as int,
            self.month as int,
            self.day as int,
            self.hour as int,
            self.minute as int,
            self.second as int,
        )
    }
}

/// The numbers of an optional point in time.
pub open spec fn opt_numbers(c: Option<Civil>) -> Option<(int, int, int, int, int, int)> {
    match c {
        Some(c) => Some(c.numbers()),
        None => None,
    }
}

/// Calls `time::OffsetDateTime::from_unix_timestamp` and reads year, month,
/// day, hour, minute and second off the result; the contract only names
/// what comes back.
#[verifier::external_body]
pub(crate) fn civil(seconds: i64) -> (r: Option<Civil>)
    ensures
        opt_numbers(r) == civil_of(seconds as int),
{
    match time::OffsetDateTime::from_unix_timestamp(seconds) {
        Ok(t) => Some(
            Civil {
                year: t.year(),
                month: u8::from(t.month()),
                day: t.day(),
                hour: t.hour(),
                minute: t.minute(),
                second: t.second(),
            },
        ),
        Err(_) => None,
    }
}

/// A point in time as text: the year, then month and day in two digits
/// each, a space, then hour, minute and second in two digits each.
pub open spec fn stamp_text(c: (int, int, int, int, int, int)) -> Seq<char> {
    signed_decimal(c.0) + "-"@ + two_digits(c.1 as nat) + "-"@ + two_digits(c.2 as nat) + " "@
        + two_digits(c.3 as nat) + ":"@ + two_digits(c.4 as nat) + ":"@ + two_digits(c.5 as nat)
}

/// When a file was changed, as text; a notice where the time is not known.
pub open spec fn modified_text(modified: Option<int>) -> Seq<char> {
    match modified {
        Some(seconds) => match civil_of(seconds) {
            Some(c) => stamp_text(c),
            None => "cannot read timestamp"@,
        },
        None => "cannot read timestamp"@,
    }
}

/// What is known of a file.
pub struct InfoModel {
    pub mode: u32,
    pub modified: Option<int>,
    pub user: Seq<char>,
    pub group: Seq<char>,
    pub size: Seq<char>,
}

/// What the file system says of a file: the mode bits, the time of the
/// last change in seconds since 1970 where it is known, the names of the
/// owning user and group (empty where unknown), and the size as text.
#[derive(Debug, PartialEq, Eq)]
pub struct FileInfo {
    pub mode: u32,
    pub modified: Option<i64>,
    pub user: String,
    pub group: String,
    pub size: String,
}

/// An optional number of seconds as an integer.
pub open spec fn opt_seconds(o: Option<i64>) -> Option<int> {
    match o {
        Some(s) => Some(s as int),
        None => None,
    }
}

impl View for FileInfo {
    type V = InfoModel;

    open spec fn view(&self) -> InfoModel {
        InfoModel {
            mode: self.mode,
            modified: opt_seconds(self.modified),
            user: self.user@,
            group: self.group@,
            size: self.size@,
        }
    }
}

/// The view of optional file information.
pub open spec fn opt_info_view(o: Option<FileInfo>) -> Option<InfoModel> {
    match o {
        Some(i) => Some(i@),
        None => None,
    }
}

/// The media type of a path as text; empty where none is known.
pub open spec fn mime_text(path: Seq<char>) -> Seq<char> {
    match mime_of(path) {
        Some(mime) => mime,
        None => Seq::empty(),
    }
}

/// What the footer says of the file at `path` beside its permissions:
/// user, group, size, time of the last change and media type, with a space
/// between them.
pub open spec fn details_text(path: Seq<char>, info: InfoModel) -> Seq<char> {
    info.user + " "@ + info.group + " "@ + info.size + " "@ + modified_text(info.modified) + " "@
        + mime_text(path)
}

/// A point in time as text.
pub fn stamp(c: Civil) -> (s: String)
    ensures
        s@ == stamp_text(c.numbers()),
{
    let mut s = String::new();
    push_signed(&mut s, c.year);
    s.append("-");
    push_two_digits(&mut s, c.month);
    s.append("-");
    push_two_digits(&mut s, c.day);
    s.append(" ");
    push_two_digits(&mut s, c.hour);
    s.append(":");
    push_two_digits(&mut s, c.minute);
    s.append(":");
    push_two_digits(&mut s, c.second);
    assert(s@ =~= stamp_text(c.numbers()));
    s
}

/// When a file was changed, as text.
pub fn modified(seconds: Option<i64>) -> (s: String)
    ensures
        s@ == modified_text(opt_seconds(seconds)),
{
    match seconds {
        Some(t) => match civil(t) {
            Some(c) => stamp(c),
            None => "cannot read timestamp".to_owned(),
        },
        None => "cannot read timestamp".to_owned(),
    }
}

/// What the footer says of the file at `path` beside its permissions.
pub fn details(path: &str, info: &FileInfo) -> (s: String)
    ensures
        s@ == details_text(path@, info@),
{
    let mut s = info.user.clone();
    s.append(" ");
    s.append(info.group.as_str());
    s.append(" ");
    s.append(info.size.as_str());
    s.append(" ");
    let changed = modified(info.modified);
    s.append(changed.as_str());
    s.append(" ");
    match mime_type(path) {
        Some(mime) => {
            s.append(mime.as_str());
        },
        None => {
            assert(s@ + Seq::<char>::empty() =~= s@);
        },
    }
    assert(s@ =~= details_text(path@, info@));
    s
}

} // verus!
