use vstd::prelude::*;
use vstd::string::StringExecFns;
use crate::paths::{file_name, file_name_of, join, joined};

verus! {

/// How the name given at registration is turned into a file name.
#[derive(Debug, PartialEq, Eq, Structural, Clone, Copy)]
pub enum PlatformName {
    /// Leave the name as it is.
    No,
    /// Format the name as a shared library is named on the platform.
    Yes,
}

/// The naming convention for shared libraries that the build targets.
#[derive(Debug, PartialEq, Eq, Structural, Clone, Copy)]
pub enum Platform {
    /// `foobar` becomes `foobar.dll`.
    Windows,
    /// `foobar` becomes `libfoobar.dylib`.
    MacOs,
    /// `foobar` becomes `libfoobar.so`.
    Unix,
}

/// What is put in front of a library's name on a platform.
pub open spec fn lib_prefix(platform: Platform) -> Seq<char> {
    match platform {
        Platform::Windows => seq![],
        Platform::MacOs => seq!['l', 'i', 'b'],
        Platform::Unix => seq!['l', 'i', 'b'],
    }
}

/// What is put behind a library's name on a platform.
pub open spec fn lib_suffix(platform: Platform) -> Seq<char> {
    match platform {
        Platform::Windows => seq!['.', 'd', 'l', 'l'],
        Platform::MacOs => seq!['.', 'd', 'y', 'l', 'i', 'b'],
        Platform::Unix => seq!['.', 's', 'o'],
    }
}

/// The platform's file name for the library `name`.
pub open spec fn dynamiclib_name(name: Seq<char>, platform: Platform) -> Seq<char> {
    lib_prefix(platform) + name + lib_suffix(platform)
}

/// The file name that is searched for when `name` is registered.
pub open spec fn library_name(name: Seq<char>, name_format: PlatformName, platform: Platform) -> Seq<
    char,
> {
    match name_format {
        PlatformName::Yes => dynamiclib_name(name, platform),
        PlatformName::No => name,
    }
}

/// Formats a library's name as the platform names shared libraries.
pub fn get_dynamiclib_name(name: &str, platform: Platform) -> (res: String)
    ensures
        res@ == dynamiclib_name(name@, platform),
{
    proof {
        reveal_strlit("");
        reveal_strlit("lib");
        reveal_strlit(".dll");
        reveal_strlit(".dylib");
        reveal_strlit(".so");
    }
    let (prefix, suffix) = match platform {
        Platform::Windows => ("", ".dll"),
        Platform::MacOs => ("lib", ".dylib"),
        Platform::Unix => ("lib", ".so"),
    };
    assert(prefix@ =~= lib_prefix(platform));
    assert(suffix@ =~= lib_suffix(platform));
    let mut res = String::from_str(prefix);
    res.append(name);
    res.append(suffix);
    res
}

/// The file name to search for: `name` itself, or `name` in the platform's form.
pub fn get_library_name(name: &str, name_format: PlatformName, platform: Platform) -> (res: String)
    ensures
        res@ == library_name(name@, name_format, platform),
{
    match name_format {
        PlatformName::Yes => get_dynamiclib_name(name, platform),
        PlatformName::No => String::from_str(name),
    }
}

/// The character that stands for a decimal digit.
pub open spec fn digit_char(d: nat) -> char
    recommends
        d < 10,
{
    if d == 0 {
        '0'
    } else if d == 1 {
        '1'
    } else if d == 2 {
        '2'
    } else if d == 3 {
        '3'
    } else if d == 4 {
        '4'
    } else if d == 5 {
        '5'
    } else if d == 6 {
        '6'
    } else if d == 7 {
        '7'
    } else if d == 8 {
        '8'
    } else {
        '9'
    }
}

/// A number written in decimal, without leading zeros.
pub open spec fn decimal(n: nat) -> Seq<char>
    decreases n,
{
    if n < 10 {
        seq![digit_char(n)]
    } else {
        decimal(n / 10).push(digit_char(n % 10))
    }
}

fn digit_str(d: u8) -> (res: &'static str)
    requires
        d < 10,
    ensures
        res@ == seq![digit_char(d as nat)],
{
    proof {
        reveal_strlit("0");
        reveal_strlit("1");
        reveal_strlit("2");
        reveal_strlit("3");
        reveal_strlit("4");
        reveal_strlit("5");
        reveal_strlit("6");
        reveal_strlit("7");
        reveal_strlit("8");
        reveal_strlit("9");
    }
    let res = match d {
        0 => "0",
        1 => "1",
        2 => "2",
        3 => "3",
        4 => "4",
        5 => "5",
        6 => "6",
        7 => "7",
        8 => "8",
        _ => "9",
    };
    assert(res@ =~= seq![digit_char(d as nat)]);
    res
}

/// Writes a number in decimal.
pub fn to_decimal(n: u128) -> (res: String)
    ensures
        res@ == decimal(n as nat),
    decreases n,
{
    if n < 10 {
        String::from_str(digit_str(n as u8))
    } else {
        let mut res = to_decimal(n / 10);
        res.append(digit_str((n % 10) as u8));
        assert(res@ =~= decimal(n as nat));
        res
    }
}

/// The name of a staged copy: the time in milliseconds, an underscore and the
/// source's file name.
pub open spec fn staged_name(millis: nat, file: Seq<char>) -> Seq<char> {
    decimal(millis) + seq!['_'] + file
}

/// Where the copy of `full_path` made at time `millis` is staged under
/// `shadow_dir`, where `full_path` has a file name.
pub open spec fn staged_path(shadow_dir: Seq<char>, full_path: Seq<char>, millis: nat) -> Option<
    Seq<char>,
> {
    match file_name_of(full_path) {
        Some(file) => Some(joined(shadow_dir, staged_name(millis, file))),
        None => None,
    }
}

/// Builds the path under `shadow_dir` to which `full_path` is copied before it
/// is loaded. The time makes copies of one source made at different times
/// differ in name. A path without a file name has no staged path.
pub fn format_filename(shadow_dir: &str, full_path: &str, millis: u128) -> (res: Option<String>)
    ensures
        res.is_some() == staged_path(shadow_dir@, full_path@, millis as nat).is_some(),
        res matches Some(p) ==> p@ == staged_path(shadow_dir@, full_path@, millis as nat).unwrap(),
{
    match file_name(full_path) {
        Some(file) => {
            proof {
                reveal_strlit("_");
            }
            let mut name = to_decimal(millis);
            name.append("_");
            name.append(file.as_str());
            assert(name@ =~= staged_name(millis as nat, file@));
            Some(join(shadow_dir, name.as_str()))
        },
        None => None,
    }
}

} // verus!
