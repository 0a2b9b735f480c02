//! File paths, held as text.
use vstd::prelude::*;
use vstd::string::*;

verus! {

/// How a system writes its paths.
#[derive(Clone, Copy, Debug, PartialEq, Eq, Structural)]
pub enum PathStyle {
    /// With `/` between the components.
    Unix,
    /// With `\` between the components; `/` is read as well.
    Windows,
}

impl PathStyle {
    /// What is written between two components.
    pub open spec fn separator(self) -> char {
        match self {
            PathStyle::Unix => '/',
            PathStyle::Windows => '\\',
        }
    }

    /// Does `c` separate two components?
    pub open spec fn separates(self, c: char) -> bool {
        c == '/' || c == self.separator()
    }
}

/// Is `base` nothing but the name of a drive, such as `C:`?
pub open spec fn is_drive(base: Seq<char>) -> bool {
    &&& base.len() == 2
    &&& base[1] == ':'
    &&& ('a' <= base[0] <= 'z' || 'A' <= base[0] <= 'Z')
}

/// Can a name follow `base` without a separator between the two? So it is where `base` is empty
/// or ends in a separator, and, in Windows paths, where it is the name of a drive.
pub open spec fn takes_no_separator(style: PathStyle, base: Seq<char>) -> bool {
    ||| base.len() == 0
    ||| style.separates(base.last())
    ||| style == PathStyle::Windows && is_drive(base)
}

/// Is `name` a single component, on whichever system?
pub open spec fn is_file_name(name: Seq<char>) -> bool {
    forall|i: int|
        0 <= i < name.len() ==> #[trigger] name[i] != '/' && name[i] != '\\' && name[i] != ':'
}

/// The path of `name` in the directory `base`: the two, with one separator between them where
/// that is needed.
pub open spec fn joined(style: PathStyle, base: Seq<char>, name: Seq<char>) -> Seq<char> {
    if takes_no_separator(style, base) {
        base + name
    } else {
        base.push(style.separator()) + name
    }
}

/// Two names lead from one directory to one path only if they are the same.
pub proof fn lemma_joined_injective(style: PathStyle, base: Seq<char>, a: Seq<char>, b: Seq<char>)
    requires
        joined(style, base, a) == joined(style, base, b),
    ensures
        a == b,
{
    let stem = if takes_no_separator(style, base) {
        base
    } else {
        base.push(style.separator())
    };
    assert((stem + a).skip(stem.len() as int) =~= a);
    assert((stem + b).skip(stem.len() as int) =~= b);
}

/// In Unix paths a name follows its directory behind one `/`, unless the directory ends in one
/// or is empty.
pub proof fn unix_paths_are_joined_by_a_slash(base: Seq<char>, name: Seq<char>)
    ensures
        joined(PathStyle::Unix, Seq::empty(), name) == name,
        base.len() > 0 && base.last() != '/' ==> joined(PathStyle::Unix, base, name) == base + seq![
            '/',
        ] + name,
        joined(PathStyle::Unix, base.push('/'), name) == base + seq!['/'] + name,
{
    assert(joined(PathStyle::Unix, Seq::empty(), name) =~= name);
    assert(base.push('/') + name =~= base + seq!['/'] + name);
}

/// In Windows paths a name follows its directory behind one `\`, unless the directory ends in a
/// separator, is empty, or is the letter of a drive and a colon.
pub proof fn windows_paths_are_joined_by_a_backslash(base: Seq<char>, name: Seq<char>, letter: char)
    ensures
        joined(PathStyle::Windows, Seq::empty(), name) == name,
        base.len() > 0 && base.len() != 2 && base.last() != '/' && base.last() != '\\' ==> joined(
            PathStyle::Windows,
            base,
            name,
        ) == base + seq!['\\'] + name,
        base.len() > 0 && base.last() != ':' && base.last() != '/' && base.last() != '\\'
            ==> joined(PathStyle::Windows, base, name) == base + seq!['\\'] + name,
        joined(PathStyle::Windows, base.push('/'), name) == base + seq!['/'] + name,
        joined(PathStyle::Windows, base.push('\\'), name) == base + seq!['\\'] + name,
        'a' <= letter <= 'z' || 'A' <= letter <= 'Z' ==> joined(
            PathStyle::Windows,
            seq![letter, ':'],
            name,
        ) == seq![letter, ':'] + name,
        !('a' <= letter <= 'z' || 'A' <= letter <= 'Z') ==> joined(
            PathStyle::Windows,
            seq![letter, ':'],
            name,
        ) == seq![letter, ':', '\\'] + name,
{
    assert(joined(PathStyle::Windows, Seq::empty(), name) =~= name);
    assert(base.push('/') + name =~= base + seq!['/'] + name);
    assert(base.push('\\') + name =~= base + seq!['\\'] + name);
    assert(seq![letter, ':'].push('\\') =~= seq![letter, ':', '\\']);
}

fn drive(base: &str) -> (b: bool)
    ensures
        b == is_drive(base@),
{
    if base.unicode_len() != 2 {
        return false;
    }
    let letter = base.get_char(0);
    base.get_char(1) == ':' && (('a' <= letter && letter <= 'z') || ('A' <= letter && letter
        <= 'Z'))
}

fn needs_no_separator(style: PathStyle, base: &str) -> (b: bool)
    ensures
        b == takes_no_separator(style, base@),
{
    let n: usize = base.unicode_len();
    if n == 0 {
        return true;
    }
    let last = base.get_char(n - 1);
    match style {
        PathStyle::Unix => last == '/',
        PathStyle::Windows => last == '/' || last == '\\' || drive(base),
    }
}

/// The path of `name` in the directory `base`.
pub fn join(style: PathStyle, base: &str, name: &str) -> (path: String)
    requires
        is_file_name(name@),
    ensures
        path@ == joined(style, base@, name@),
{
    let mut path = base.to_string();
    if !needs_no_separator(style, base) {
        proof {
            reveal_strlit("/");
            reveal_strlit("\\");
        }
        match style {
            PathStyle::Unix => path.append("/"),
            PathStyle::Windows => path.append("\\"),
        }
        assert(path@ =~= base@.push(style.separator()));
    }
    path.append(name);
    path
}

} // verus!
