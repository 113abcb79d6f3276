//! The search for the 7-Zip program: the names it goes by on the search
//! path, the files of its known installations on Windows, and which of the
//! places that were probed is taken.

use crate::text::strings_view;
use vstd::prelude::*;

verus! {

/// The names under which 7-Zip is looked up on the search path.
pub open spec fn seven_zip_commands_spec() -> Seq<Seq<char>> {
    seq!["7z"@, "7zz"@, "7za"@]
}

/// The names under which 7-Zip is looked up on the search path, in order.
pub fn seven_zip_commands() -> (r: Vec<String>)
    ensures
        strings_view(r@) == seven_zip_commands_spec(),
{
    let mut names: Vec<String> = Vec::new();
    names.push("7z".to_owned());
    names.push("7zz".to_owned());
    names.push("7za".to_owned());
    proof {
        assert(strings_view(names@) =~= seven_zip_commands_spec());
    }
    names
}

/// The places of a 7-Zip installation below each of the directories given.
pub open spec fn below_each(dirs: Seq<Seq<char>>) -> Seq<Seq<char>>
    decreases dirs.len(),
{
    if dirs.len() == 0 {
        Seq::empty()
    } else {
        below_each(dirs.drop_last()).push(dirs.last() + "\\7-Zip\\7z.exe"@)
    }
}

/// The files that may be a 7-Zip installation on Windows: the standard
/// places, the places of the user's Scoop where a profile directory is
/// known, then the place below each program directory given.
pub open spec fn seven_zip_install_paths_spec(
    user_profile: Option<Seq<char>>,
    program_dirs: Seq<Seq<char>>,
) -> Seq<Seq<char>> {
    let fixed = seq![
        "C:\\Program Files\\7-Zip\\7z.exe"@,
        "C:\\Program Files (x86)\\7-Zip\\7z.exe"@,
        "C:\\ProgramData\\chocolatey\\bin\\7z.exe"@,
    ];
    let scoop = match user_profile {
        Some(profile) => seq![
            profile + "\\scoop\\apps\\7zip\\current\\7z.exe"@,
            profile + "\\scoop\\shims\\7z.exe"@,
        ],
        None => Seq::empty(),
    };
    fixed + scoop + below_each(program_dirs)
}

/// The files that may be a 7-Zip installation on Windows, in the order in
/// which they are to be looked at.
pub fn seven_zip_install_paths(user_profile: Option<&str>, program_dirs: &Vec<String>) -> (r: Vec<
    String,
>)
    ensures
        strings_view(r@) == seven_zip_install_paths_spec(
            match user_profile {
                Some(profile) => Some(profile@),
                None => None,
            },
            strings_view(program_dirs@),
        ),
{
    let mut paths: Vec<String> = Vec::new();
    paths.push("C:\\Program Files\\7-Zip\\7z.exe".to_owned());
    paths.push("C:\\Program Files (x86)\\7-Zip\\7z.exe".to_owned());
    paths.push("C:\\ProgramData\\chocolatey\\bin\\7z.exe".to_owned());
    match user_profile {
        Some(profile) => {
            paths.push(profile.to_owned().concat("\\scoop\\apps\\7zip\\current\\7z.exe"));
            paths.push(profile.to_owned().concat("\\scoop\\shims\\7z.exe"));
        },
        None => {},
    }
    let ghost head = strings_view(paths@);
    let ghost dirs = strings_view(program_dirs@);
    let mut i: usize = 0;
    while i < program_dirs.len()
        invariant
            i <= program_dirs.len(),
            dirs == strings_view(program_dirs@),
            strings_view(paths@) == head + below_each(dirs.take(i as int)),
        decreases program_dirs.len() - i,
    {
        proof {
            assert(dirs.take(i + 1).drop_last() == dirs.take(i as int));
            assert(dirs.take(i + 1).last() == program_dirs@[i as int]@);
        }
        let ghost before = strings_view(paths@);
        paths.push(program_dirs[i].clone().concat("\\7-Zip\\7z.exe"));
        proof {
            assert(strings_view(paths@) =~= before.push(
                program_dirs@[i as int]@ + "\\7-Zip\\7z.exe"@,
            ));
            assert(strings_view(paths@) =~= head + below_each(dirs.take(i + 1)));
        }
        i += 1;
    }
    proof {
        assert(dirs.take(i as int) == dirs);
    }
    paths
}

/// A place where 7-Zip may be found.
#[derive(Debug)]
pub struct SearchPlace {
    /// The program's name or the file's path.
    pub path: String,
    /// Whether the place is a name to look up on the search path, to be
    /// tried by asking the program for its help text, rather than a file to
    /// be looked for.
    pub by_name: bool,
}

/// The mathematical value of a [`SearchPlace`].
pub struct SearchPlaceView {
    pub path: Seq<char>,
    pub by_name: bool,
}

impl View for SearchPlace {
    type V = SearchPlaceView;

    open spec fn view(&self) -> SearchPlaceView {
        SearchPlaceView { path: self.path@, by_name: self.by_name }
    }
}

/// The views of a list of places, in order.
pub open spec fn places_view(places: Seq<SearchPlace>) -> Seq<SearchPlaceView> {
    Seq::new(places.len(), |i: int| places[i]@)
}

/// The paths given, each as a place of the kind given.
pub open spec fn as_places(paths: Seq<Seq<char>>, by_name: bool) -> Seq<SearchPlaceView> {
    Seq::new(paths.len(), |i: int| SearchPlaceView { path: paths[i], by_name })
}

/// The places where 7-Zip is searched, in order: the names on the search
/// path, then, on Windows, the files of the known installations.
pub open spec fn seven_zip_places_spec(
    windows: bool,
    user_profile: Option<Seq<char>>,
    program_dirs: Seq<Seq<char>>,
) -> Seq<SearchPlaceView> {
    as_places(seven_zip_commands_spec(), true) + if windows {
        as_places(seven_zip_install_paths_spec(user_profile, program_dirs), false)
    } else {
        Seq::empty()
    }
}

/// Appends the paths given to a list of places, each as a place of the
/// kind given.
fn push_places(places: &mut Vec<SearchPlace>, paths: Vec<String>, by_name: bool)
    ensures
        places_view(final(places)@) == places_view(old(places)@) + as_places(
            strings_view(paths@),
            by_name,
        ),
{
    let ghost before = places_view(places@);
    let ghost all = as_places(strings_view(paths@), by_name);
    let mut i: usize = 0;
    while i < paths.len()
        invariant
            i <= paths.len(),
            all == as_places(strings_view(paths@), by_name),
            places_view(places@) == before + all.take(i as int),
        decreases paths.len() - i,
    {
        let ghost so_far = places_view(places@);
        places.push(SearchPlace { path: paths[i].clone(), by_name });
        proof {
            assert(places_view(places@) =~= so_far.push(all[i as int]));
            assert(before + all.take(i + 1) =~= (before + all.take(i as int)).push(all[i as int]));
        }
        i += 1;
    }
    proof {
        assert(all.take(i as int) =~= all);
    }
}

/// The places where 7-Zip is searched, in the order of the search.
pub fn seven_zip_places(windows: bool, user_profile: Option<&str>, program_dirs: &Vec<String>) -> (r:
    Vec<SearchPlace>)
    ensures
        places_view(r@) == seven_zip_places_spec(
            windows,
            match user_profile {
                Some(profile) => Some(profile@),
                None => None,
            },
            strings_view(program_dirs@),
        ),
{
    let mut places: Vec<SearchPlace> = Vec::new();
    proof {
        assert(places_view(places@) =~= Seq::<SearchPlaceView>::empty());
    }
    push_places(&mut places, seven_zip_commands(), true);
    if windows {
        push_places(&mut places, seven_zip_install_paths(user_profile, program_dirs), false);
    }
    proof {
        let profile = match user_profile {
            Some(profile) => Some(profile@),
            None => None,
        };
        assert(places_view(places@) =~= seven_zip_places_spec(
            windows,
            profile,
            strings_view(program_dirs@),
        ));
    }
    places
}

/// Whether a program that was asked for its help text counts as present.
/// It does where it could be started and either exited with success or
/// wrote something to its standard output.
pub fn probe_usable(started: bool, success: bool, wrote_output: bool) -> (r: bool)
    ensures
        r == (started && (success || wrote_output)),
{
    started && (success || wrote_output)
}

/// The first place that proved usable, if any did.
pub fn first_usable(usable: &Vec<bool>) -> (r: Option<usize>)
    ensures
        match r {
            Some(i) => i < usable@.len() && usable@[i as int] && forall|j: int|
                0 <= j < i ==> !usable@[j],
            None => forall|j: int| 0 <= j < usable@.len() ==> !usable@[j],
        },
{
    let mut i: usize = 0;
    while i < usable.len()
        invariant
            i <= usable.len(),
            forall|j: int| 0 <= j < i ==> !usable@[j],
        decreases usable.len() - i,
    {
        if usable[i] {
            return Some(i);
        }
        i += 1;
    }
    None
}

} // verus!
