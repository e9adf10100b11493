//! Scratch files: a per-run file inside a fixed subdirectory of the platform
//! temp directory, named from the current local wall-clock time at second
//! resolution.

use vstd::prelude::*;

verus! {

/// A local wall-clock instant at second resolution.
#[derive(Clone, Copy, PartialEq, Eq, Structural)]
pub struct Timestamp {
    pub year: i32,
    pub month: u32,
    pub day: u32,
    pub hour: u32,
    pub minute: u32,
    pub second: u32,
}

impl Timestamp {
    /// Calendar bounds on the fields.
    pub open spec fn wf(&self) -> bool {
        &&& 1 <= self.month <= 12
        &&& 1 <= self.day <= 31
        &&& self.hour <= 23
        &&& self.minute <= 59
        &&& self.second <= 59
    }
}

/// Relies on chrono::Local::now and the Datelike/Timelike accessors: month is
/// 1 to 12, day is 1 to 31, hour is 0 to 23, minute and second are 0 to 59.
#[verifier::external_body]
pub fn now_local() -> (t: Timestamp)
    ensures
        t.wf(),
{
    let now = chrono::Local::now();
    Timestamp {
        year: chrono::Datelike::year(&now),
        month: chrono::Datelike::month(&now),
        day: chrono::Datelike::day(&now),
        hour: chrono::Timelike::hour(&now),
        minute: chrono::Timelike::minute(&now),
        second: chrono::Timelike::second(&now),
    }
}

/// The decimal digit character for `d`.
pub open spec fn digit(d: int) -> char {
    if d == 0 {
        '0'
    } else if d == 1 {
        '1'
    } else if d == 2 {
        '2'
    } else if d == 3 {
        '3'
    } else if d == 4 {
        '4'
    } else if d == 5 {
        '5'
    } else if d == 6 {
        '6'
    } else if d == 7 {
        '7'
    } else if d == 8 {
        '8'
    } else {
        '9'
    }
}

/// `v` written as exactly two decimal digits, zero padded.
pub open spec fn two_digits(v: int) -> Seq<char> {
    seq![digit(v / 10), digit(v % 10)]
}

/// The last two decimal digits of the year, ignoring its sign.
pub open spec fn year_two(y: int) -> int {
    (if y < 0 {
        -y
    } else {
        y
    }) % 100
}

/// The scratch file name for the instant `t`: a fixed prefix followed by the
/// twelve digits of year, month, day, hour, minute and second.
pub open spec fn scratch_name_spec(t: Timestamp) -> Seq<char> {
    seq!['d', 'o', 'c', '-'] + two_digits(year_two(t.year as int)) + two_digits(t.month as int)
        + two_digits(t.day as int) + two_digits(t.hour as int) + two_digits(t.minute as int)
        + two_digits(t.second as int)
}

/// The name of the scratch subdirectory under the platform temp directory.
pub open spec fn scratch_subdir_spec() -> Seq<char> {
    "vim-anwhere"@
}

/// The full scratch file path under the temp root `root`.
pub open spec fn scratch_path_spec(root: Seq<char>, t: Timestamp) -> Seq<char> {
    root + seq!['/'] + scratch_subdir_spec() + seq!['/'] + scratch_name_spec(t)
}

/// The single decimal digit `d` as a string slice.
fn digit_str(d: u64) -> (r: &'static str)
    requires
        d < 10,
    ensures
        r@ == seq![digit(d as int)],
{
    let r: &'static str = if d == 0 {
        "0"
    } else if d == 1 {
        "1"
    } else if d == 2 {
        "2"
    } else if d == 3 {
        "3"
    } else if d == 4 {
        "4"
    } else if d == 5 {
        "5"
    } else if d == 6 {
        "6"
    } else if d == 7 {
        "7"
    } else if d == 8 {
        "8"
    } else {
        "9"
    };
    proof {
        reveal_strlit("0");
        reveal_strlit("1");
        reveal_strlit("2");
        reveal_strlit("3");
        reveal_strlit("4");
        reveal_strlit("5");
        reveal_strlit("6");
        reveal_strlit("7");
        reveal_strlit("8");
        reveal_strlit("9");
        assert(r@ =~= seq![digit(d as int)]);
    }
    r
}

/// Appends `v` as exactly two decimal digits.
fn push_two_digits(s: &mut String, v: u64)
    requires
        v < 100,
    ensures
        final(s)@ == old(s)@ + two_digits(v as int),
{
    s.append(digit_str(v / 10));
    s.append(digit_str(v % 10));
    proof {
        assert(s@ =~= old(s)@ + two_digits(v as int));
    }
}

/// Formats the scratch file name for the instant `t`.
pub fn scratch_name(t: &Timestamp) -> (r: String)
    requires
        t.wf(),
    ensures
        r@ == scratch_name_spec(*t),
{
    let mut s = "doc-".to_owned();
    let ya: u64 = if t.year < 0 {
        (-(t.year as i64)) as u64
    } else {
        t.year as u64
    };
    push_two_digits(&mut s, ya % 100);
    push_two_digits(&mut s, t.month as u64);
    push_two_digits(&mut s, t.day as u64);
    push_two_digits(&mut s, t.hour as u64);
    push_two_digits(&mut s, t.minute as u64);
    push_two_digits(&mut s, t.second as u64);
    proof {
        reveal_strlit("doc-");
        assert("doc-"@ =~= seq!['d', 'o', 'c', '-']);
        assert(ya as int == (if t.year < 0 {
            -(t.year as int)
        } else {
            t.year as int
        }));
        assert(s@ =~= scratch_name_spec(*t));
    }
    s
}

/// Joins a directory path and an entry name with a single separator.
pub fn join_path(dir: &str, name: &str) -> (r: String)
    ensures
        r@ == dir@ + seq!['/'] + name@,
{
    let mut s = dir.to_owned();
    s.append("/");
    s.append(name);
    proof {
        reveal_strlit("/");
        assert(s@ =~= dir@ + seq!['/'] + name@);
    }
    s
}

/// The name of the scratch subdirectory as a string slice.
pub fn scratch_subdir() -> (r: &'static str)
    ensures
        r@ == scratch_subdir_spec(),
{
    "vim-anwhere"
}

/// The scratch file for one editing session.
#[derive(Clone)]
pub struct TempFile {
    pub path: String,
}

impl TempFile {
    /// Names the scratch file under the temp root `root` for the instant `t`.
    /// The file itself is not created here: the editor brings it into being.
    pub fn named(root: &str, t: &Timestamp) -> (f: TempFile)
        requires
            t.wf(),
        ensures
            f.path@ == scratch_path_spec(root@, *t),
    {
        let dir = join_path(root, scratch_subdir());
        let name = scratch_name(t);
        let path = join_path(dir.as_str(), name.as_str());
        proof {
            assert(path@ =~= scratch_path_spec(root@, *t));
        }
        TempFile { path }
    }

    /// The directory that holds the scratch file, to be created on first use.
    pub fn scratch_dir(root: &str) -> (r: String)
        ensures
            r@ == root@ + seq!['/'] + scratch_subdir_spec(),
    {
        join_path(root, scratch_subdir())
    }
}

/// Law: the scratch path is a function of the temp root and the
/// second-resolution timestamp alone, so two requests issued within the same
/// wall-clock second name the very same path.
pub proof fn lemma_scratch_path_idempotent(root: Seq<char>, a: Timestamp, b: Timestamp)
    requires
        a == b,
    ensures
        scratch_path_spec(root, a) == scratch_path_spec(root, b),
{
}

} // verus!
