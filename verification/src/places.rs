//! Where the program keeps its files, as a starting directory and the names
//! that are joined to it.

use crate::model::{SoftwareItem, SoftwareView};
use std::path::PathBuf;
use vstd::prelude::*;

verus! {

/// A path of the operating system. It is carried from the directory lookups to
/// the caller; nothing is known of what is inside.
#[verifier::external_type_specification]
#[verifier::external_body]
pub struct ExPathBuf(std::path::PathBuf);

/// The directory that a location starts from.
pub enum Root {
    /// A directory that the operating system named.
    Found(PathBuf),
    /// A directory written as text; the empty text is the current directory.
    Text(String),
}

/// The mathematical reading of [`Root`].
pub enum RootView {
    Found(PathBuf),
    Text(Seq<char>),
}

impl View for Root {
    type V = RootView;

    open spec fn view(&self) -> RootView {
        match self {
            Root::Found(p) => RootView::Found(*p),
            Root::Text(t) => RootView::Text(t@),
        }
    }
}

/// A place in the file system: `segments` joined in turn to `root`.
pub struct Location {
    pub root: Root,
    pub segments: Vec<String>,
}

/// The mathematical reading of [`Location`].
#[verifier::ext_equal]
pub struct LocationView {
    pub root: RootView,
    pub segments: Seq<Seq<char>>,
}

impl View for Location {
    type V = LocationView;

    open spec fn view(&self) -> LocationView {
        LocationView { root: self.root@, segments: self.segments.deep_view() }
    }
}

impl LocationView {
    /// This location with one more name joined to it.
    pub open spec fn join(self, name: Seq<char>) -> LocationView {
        LocationView { root: self.root, segments: self.segments.push(name) }
    }
}

impl Location {
    /// The directory `root` itself.
    pub fn at(root: Root) -> (r: Location)
        ensures
            r@ == (LocationView { root: root@, segments: Seq::empty() }),
    {
        let r = Location { root, segments: Vec::new() };
        assert(r@.segments =~= Seq::<Seq<char>>::empty());
        r
    }

    /// The location `name` below this one.
    pub fn join(self, name: &str) -> (r: Location)
        ensures
            r@ == self@.join(name@),
    {
        let mut segments = self.segments;
        segments.push(name.to_owned());
        let r = Location { root: self.root, segments };
        assert(r@.segments =~= self@.segments.push(name@));
        r
    }
}

/// `dirs::home_dir`: the home directory of the user, where the operating system
/// names one, as a path and as the text that `Path::to_string_lossy` makes of it.
/// Which it is depends on the machine, and nothing is claimed of it.
#[verifier::external_body]
fn os_home_dir() -> (r: Option<(PathBuf, String)>)
{
    dirs::home_dir().map(|path| {
        let text = path.to_string_lossy().into_owned();
        (path, text)
    })
}

/// The path in what the operating system names for a home directory.
spec fn path_part(home: Option<(PathBuf, String)>) -> Option<PathBuf> {
    match home {
        Some(pair) => Some(pair.0),
        None => None,
    }
}

/// Whether the operating system may name this path for the home directory: that
/// of a pair which [`os_home_dir`] may return, and nothing where it may return
/// none.
pub closed spec fn is_home_path(path: Option<PathBuf>) -> bool {
    exists|home: Option<(PathBuf, String)>| #[trigger]
        call_ensures(os_home_dir, (), home) && path == path_part(home)
}

/// The path of the home directory, where the operating system names one.
fn home_path() -> (r: Option<PathBuf>)
    ensures
        is_home_path(r),
{
    match os_home_dir() {
        Some(home) => Some(home.0),
        None => None,
    }
}

/// The reading of a text that may be missing.
pub open spec fn home_view(home: Option<String>) -> Option<Seq<char>> {
    match home {
        Some(text) => Some(text@),
        None => None,
    }
}

/// Whether the operating system may name the home directory by this text: that
/// of a pair which [`os_home_dir`] may return, and nothing where it may return
/// none.
pub closed spec fn is_home_text(text: Option<Seq<char>>) -> bool {
    exists|home: Option<(PathBuf, String)>| #[trigger]
        call_ensures(os_home_dir, (), home) && text == (match home {
            Some(pair) => Some(pair.1@),
            None => None,
        })
}

/// The home directory as text, where the operating system names one.
pub fn home_text() -> (r: Option<String>)
    ensures
        is_home_text(home_view(r)),
{
    match os_home_dir() {
        Some(home) => Some(home.1),
        None => None,
    }
}

/// `dirs::download_dir`: the directory for downloads, where the operating system
/// names one. Which it is depends on the machine, and nothing is claimed of it. A
/// malformed file of user directories on the machine can make the call panic.
#[verifier::external_body]
fn os_download_dir() -> (r: Option<PathBuf>)
{
    dirs::download_dir()
}

/// `dirs::desktop_dir`: the directory of the desktop, where the operating system
/// names one. Which it is depends on the machine, and nothing is claimed of it. A
/// malformed file of user directories on the machine can make the call panic.
#[verifier::external_body]
fn os_desktop_dir() -> (r: Option<PathBuf>)
{
    dirs::desktop_dir()
}

/// `dirs::config_dir`: the directory for configuration, where the operating
/// system names one. Which it is depends on the machine, and nothing is claimed
/// of it.
#[verifier::external_body]
fn os_config_dir() -> (r: Option<PathBuf>)
{
    dirs::config_dir()
}

/// A directory that the operating system named.
pub open spec fn found(path: PathBuf) -> LocationView {
    LocationView { root: RootView::Found(path), segments: Seq::empty() }
}

/// A directory written as text.
pub open spec fn written(text: Seq<char>) -> LocationView {
    LocationView { root: RootView::Text(text), segments: Seq::empty() }
}

/// Where downloads go: the directory for downloads, else `Downloads` in the home
/// directory, else the current directory.
pub open spec fn downloads_of(download: Option<PathBuf>, home: Option<PathBuf>) -> LocationView {
    match (download, home) {
        (Some(path), _) => found(path),
        (None, Some(path)) => found(path).join("Downloads"@),
        (None, None) => written("."@),
    }
}

/// Where downloads go, by the directories that the operating system names.
pub fn downloads_location(download: Option<PathBuf>, home: Option<PathBuf>) -> (r: Location)
    ensures
        r@ == downloads_of(download, home),
{
    match download {
        Some(path) => Location::at(Root::Found(path)),
        None => match home {
            Some(path) => Location::at(Root::Found(path)).join("Downloads"),
            None => Location::at(Root::Text(".".to_owned())),
        },
    }
}

/// Whether downloads may go to this place: to a directory for downloads that
/// [`os_download_dir`] names, and by the home directory only where it names none.
pub closed spec fn is_downloads_dir(place: LocationView) -> bool {
    exists|download: Option<PathBuf>| #[trigger]
        call_ensures(os_download_dir, (), download) && match download {
            Some(path) => place == found(path),
            None => exists|home: Option<PathBuf>| #[trigger]
                is_home_path(home) && place == downloads_of(None, home),
        }
}

/// Where downloads go.
pub fn downloads_dir() -> (r: Location)
    ensures
        is_downloads_dir(r@),
        exists|download: Option<PathBuf>, home: Option<PathBuf>|
            r@ == #[trigger] downloads_of(download, home),
{
    let download = os_download_dir();
    let home = if download.is_some() {
        None
    } else {
        home_path()
    };
    downloads_location(download, home)
}

/// Where the program keeps its configuration: `easyenv` in the directory for
/// configuration, else in the home directory, else in the current one.
pub open spec fn config_of(config: Option<PathBuf>, home: Option<PathBuf>) -> LocationView {
    match (config, home) {
        (Some(path), _) => found(path),
        (None, Some(path)) => found(path),
        (None, None) => written(""@),
    }.join("easyenv"@)
}

/// Where the program keeps its configuration, by the directories that the
/// operating system names.
pub fn config_location(config: Option<PathBuf>, home: Option<PathBuf>) -> (r: Location)
    ensures
        r@ == config_of(config, home),
{
    let base = match config {
        Some(path) => Location::at(Root::Found(path)),
        None => home_location(home),
    };
    base.join("easyenv")
}

/// Whether the program may keep its configuration in this place: in a directory
/// for configuration that [`os_config_dir`] names, and by the home directory only
/// where it names none.
pub closed spec fn is_config_dir(place: LocationView) -> bool {
    exists|config: Option<PathBuf>| #[trigger]
        call_ensures(os_config_dir, (), config) && match config {
            Some(path) => place == found(path).join("easyenv"@),
            None => exists|home: Option<PathBuf>| #[trigger]
                is_home_path(home) && place == config_of(None, home),
        }
}

/// Where the program keeps its configuration.
pub fn config_dir() -> (r: Location)
    ensures
        is_config_dir(r@),
        exists|config: Option<PathBuf>, home: Option<PathBuf>|
            r@ == #[trigger] config_of(config, home),
{
    let config = os_config_dir();
    let home = if config.is_some() {
        None
    } else {
        home_path()
    };
    config_location(config, home)
}

/// The file that the environments are kept in.
pub fn config_file() -> (r: Location)
    ensures
        exists|dir: LocationView| #[trigger]
            is_config_dir(dir) && r@ == dir.join("environments.json"@),
        exists|config: Option<PathBuf>, home: Option<PathBuf>|
            r@ == (#[trigger] config_of(config, home)).join("environments.json"@),
{
    config_dir().join("environments.json")
}

/// Whether the program may keep its logs in this place: in `logs` in the place of
/// its configuration.
pub open spec fn is_log_dir(place: LocationView) -> bool {
    exists|dir: LocationView| #[trigger] is_config_dir(dir) && place == dir.join("logs"@)
}

/// Where the program keeps its logs.
pub fn log_dir() -> (r: Location)
    ensures
        is_log_dir(r@),
        exists|config: Option<PathBuf>, home: Option<PathBuf>|
            r@ == (#[trigger] config_of(config, home)).join("logs"@),
{
    config_dir().join("logs")
}

/// The log of the program's start: on the desktop, else in the home directory,
/// else in the current one.
pub open spec fn debug_log_of(desktop: Option<PathBuf>, home: Option<PathBuf>) -> LocationView {
    match (desktop, home) {
        (Some(path), _) => found(path),
        (None, Some(path)) => found(path),
        (None, None) => written("."@),
    }.join("easyenv_debug.log"@)
}

/// The log of the program's start, by the directories that the operating system
/// names.
pub fn debug_log_location(desktop: Option<PathBuf>, home: Option<PathBuf>) -> (r: Location)
    ensures
        r@ == debug_log_of(desktop, home),
{
    let base = match desktop {
        Some(path) => Location::at(Root::Found(path)),
        None => match home {
            Some(path) => Location::at(Root::Found(path)),
            None => Location::at(Root::Text(".".to_owned())),
        },
    };
    base.join("easyenv_debug.log")
}

/// Whether this place may be that of the log of the program's start: on a desktop
/// that [`os_desktop_dir`] names, and by the home directory only where it names
/// none.
pub closed spec fn is_debug_log_file(place: LocationView) -> bool {
    exists|desktop: Option<PathBuf>| #[trigger]
        call_ensures(os_desktop_dir, (), desktop) && match desktop {
            Some(path) => place == found(path).join("easyenv_debug.log"@),
            None => exists|home: Option<PathBuf>| #[trigger]
                is_home_path(home) && place == debug_log_of(None, home),
        }
}

/// The log of the program's start.
pub fn debug_log_file() -> (r: Location)
    ensures
        is_debug_log_file(r@),
        exists|desktop: Option<PathBuf>, home: Option<PathBuf>|
            r@ == #[trigger] debug_log_of(desktop, home),
{
    let desktop = os_desktop_dir();
    let home = if desktop.is_some() {
        None
    } else {
        home_path()
    };
    debug_log_location(desktop, home)
}

/// The home directory, else the current one.
pub open spec fn home_of(home: Option<PathBuf>) -> LocationView {
    match home {
        Some(path) => found(path),
        None => written(""@),
    }
}

/// The home directory, by what the operating system names.
pub fn home_location(home: Option<PathBuf>) -> (r: Location)
    ensures
        r@ == home_of(home),
{
    match home {
        Some(path) => Location::at(Root::Found(path)),
        None => Location::at(Root::Text("".to_owned())),
    }
}

/// The home directory.
pub fn home_dir() -> (r: Location)
    ensures
        exists|home: Option<PathBuf>| #[trigger] is_home_path(home) && r@ == home_of(home),
{
    home_location(home_path())
}

/// Where software is installed: its folder in its parent directory, else in the
/// home directory, whose text `home` is, else in the current one.
pub open spec fn install_of(software: SoftwareView, home: Option<Seq<char>>) -> LocationView {
    let parent = if software.dir.len() > 0 {
        software.dir
    } else {
        match home {
            Some(text) => text,
            None => "."@,
        }
    };
    written(parent).join(software.folder)
}

/// Where software is installed, where `home` is the text of the home directory.
pub fn install_location(software: &SoftwareItem, home: &Option<String>) -> (r: Location)
    ensures
        r@ == install_of(software@, home_view(*home)),
        r.segments.deep_view() == seq![software.folder@],
        software.dir@.len() > 0 ==> (r.root matches Root::Text(parent) && parent@
            == software.dir@),
        software.dir@.len() == 0 && home is Some ==> (r.root matches Root::Text(parent) && parent@
            == home->0@),
        software.dir@.len() == 0 && home is None ==> (r.root matches Root::Text(parent) && parent@
            == "."@),
{
    let parent = if !software.dir.as_str().is_empty() {
        software.dir.clone()
    } else {
        match home {
            Some(text) => text.clone(),
            None => ".".to_owned(),
        }
    };
    let r = Location::at(Root::Text(parent)).join(software.folder.as_str());
    assert(r@.segments =~= seq![software.folder@]);
    r
}

/// Where software is installed.
pub fn install_dir(software: &SoftwareItem) -> (r: Location)
    ensures
        software@.dir.len() > 0 ==> r@ == written(software@.dir).join(software@.folder),
        r.segments.deep_view() == seq![software.folder@],
        software.dir@.len() > 0 ==> (r.root matches Root::Text(parent) && parent@
            == software.dir@),
        software@.dir.len() == 0 ==> exists|home: Option<Seq<char>>| #[trigger]
            is_home_text(home) && r@ == install_of(software@, home),
{
    let home = if software.dir.as_str().is_empty() {
        home_text()
    } else {
        None
    };
    install_location(software, &home)
}

/// The reading of a location keeps its root and its names, in their order.
pub proof fn reading_keeps_the_place(location: Location)
    ensures
        location@.segments == location.segments.deep_view(),
        location.root matches Root::Found(path) ==> location@.root == RootView::Found(path),
        location.root matches Root::Text(text) ==> location@.root == RootView::Text(text@),
{
}

/// Software is installed in exactly its folder below its parent directory: the one
/// that it names, else the home directory, else the current one. Nothing else of
/// the software matters: not its name, not its URL, not what is done with the
/// search path.
pub proof fn software_goes_to_its_own_folder(software: SoftwareView, home: Option<Seq<char>>)
    ensures
        install_of(software, home).segments == seq![software.folder],
        software.dir.len() > 0 ==> install_of(software, home).root == RootView::Text(software.dir),
        software.dir.len() == 0 && home is Some ==> install_of(software, home).root
            == RootView::Text(home->0),
        software.dir.len() == 0 && home is None ==> install_of(software, home).root
            == RootView::Text("."@),
{
    assert(install_of(software, home).segments =~= seq![software.folder]);
}

/// Two pieces of software go to the same place exactly if their folders and their
/// parent directories are the same; one that names its parent directory goes there
/// whatever the home directory is.
pub proof fn place_depends_on_directory_and_folder(
    a: SoftwareView,
    b: SoftwareView,
    home: Option<Seq<char>>,
    other: Option<Seq<char>>,
)
    ensures
        a.folder != b.folder ==> install_of(a, home) != install_of(b, home),
        a.folder == b.folder && a.dir == b.dir ==> install_of(a, home) == install_of(b, home),
        a.dir.len() > 0 && b.dir.len() > 0 && a.dir != b.dir ==> install_of(a, home) != install_of(
            b,
            home,
        ),
        a.dir.len() > 0 ==> install_of(a, home) == install_of(a, other),
{
    software_goes_to_its_own_folder(a, home);
    software_goes_to_its_own_folder(b, home);
    software_goes_to_its_own_folder(a, other);
    assert(seq![a.folder][0] == a.folder && seq![b.folder][0] == b.folder);
}

/// Downloads go to the directory for downloads where there is one, else to
/// `Downloads` in the home directory, else to the current directory.
pub proof fn downloads_go_to_the_first_that_is_there(download: PathBuf, home: Option<PathBuf>)
    ensures
        downloads_of(Some(download), home).root == RootView::Found(download),
        downloads_of(Some(download), home).segments.len() == 0,
        home matches Some(path) ==> downloads_of(None, home).root == RootView::Found(path)
            && downloads_of(None, home).segments == seq!["Downloads"@],
        home is None ==> downloads_of(None, home).root == RootView::Text("."@) && downloads_of(
            None,
            home,
        ).segments.len() == 0,
{
    assert(home is Some ==> downloads_of(None, home).segments =~= seq!["Downloads"@]);
}

/// The configuration is kept in `easyenv` in the directory for configuration where
/// there is one, else in the home directory, else in the current one.
pub proof fn configuration_goes_to_the_first_that_is_there(config: PathBuf, home: Option<PathBuf>)
    ensures
        config_of(Some(config), home).root == RootView::Found(config),
        config_of(Some(config), home).segments == seq!["easyenv"@],
        config_of(None, home).segments == seq!["easyenv"@],
        home matches Some(path) ==> config_of(None, home).root == RootView::Found(path),
        home is None ==> (config_of(None, home).root matches RootView::Text(text) && text
            == ""@),
{
    assert(config_of(Some(config), home).segments =~= seq!["easyenv"@]);
    assert(config_of(None, home).segments =~= seq!["easyenv"@]);
}

/// The log of the program's start is on the desktop where there is one, else in the
/// home directory, else in the current one.
pub proof fn start_log_goes_to_the_first_that_is_there(desktop: PathBuf, home: Option<PathBuf>)
    ensures
        debug_log_of(Some(desktop), home).root == RootView::Found(desktop),
        debug_log_of(Some(desktop), home).segments == seq!["easyenv_debug.log"@],
        debug_log_of(None, home).segments == seq!["easyenv_debug.log"@],
        home matches Some(path) ==> debug_log_of(None, home).root == RootView::Found(path),
        home is None ==> debug_log_of(None, home).root == RootView::Text("."@),
{
    assert(debug_log_of(Some(desktop), home).segments =~= seq!["easyenv_debug.log"@]);
    assert(debug_log_of(None, home).segments =~= seq!["easyenv_debug.log"@]);
}

/// The home directory is the one that the operating system names, else the current
/// one.
pub proof fn home_is_where_the_system_says(home: Option<PathBuf>)
    ensures
        home_of(home).segments.len() == 0,
        home matches Some(path) ==> home_of(home).root == RootView::Found(path),
        home is None ==> home_of(home).root == RootView::Text(""@),
{
}

/// A name that is joined comes last, and changes nothing before it.
pub proof fn joined_name_comes_last(place: LocationView, name: Seq<char>)
    ensures
        place.join(name).root == place.root,
        place.join(name).segments == place.segments.push(name),
{
}

/// What the home directory is said to be, the operating system says.
proof fn home_is_asked_for(path: Option<PathBuf>, text: Option<Seq<char>>)
    ensures
        is_home_path(path) ==> exists|pair: Option<(PathBuf, String)>| #[trigger]
            call_ensures(os_home_dir, (), pair) && (pair matches Some(home) ==> path == Some(
                home.0,
            )) && (pair is None ==> path is None),
        is_home_text(text) ==> exists|pair: Option<(PathBuf, String)>| #[trigger]
            call_ensures(os_home_dir, (), pair) && (pair matches Some(home) ==> text == Some(
                home.1@,
            )) && (pair is None ==> text is None),
{
}

/// Where the operating system names a directory for downloads, downloads go there
/// and to no other place; the home directory is asked for only where it names none.
proof fn downloads_are_where_the_system_says(place: LocationView)
    requires
        is_downloads_dir(place),
    ensures
        exists|named: Option<PathBuf>| #[trigger]
            call_ensures(os_download_dir, (), named) && (named matches Some(path) ==> place.root
                == RootView::Found(path) && place.segments.len() == 0) && (named is None ==> exists|
                home: Option<PathBuf>,
            | #[trigger]
                is_home_path(home) && (home matches Some(path) ==> place.root == RootView::Found(
                    path,
                ) && place.segments == seq!["Downloads"@]) && (home is None ==> place.root == RootView::Text("."@)
                    && place.segments.len() == 0)),
{
    let named = choose|named: Option<PathBuf>| #[trigger]
        call_ensures(os_download_dir, (), named) && (match named {
            Some(path) => place == found(path),
            None => exists|home: Option<PathBuf>| #[trigger]
                is_home_path(home) && place == downloads_of(None, home),
        });
    if named is None {
        let home = choose|home: Option<PathBuf>| #[trigger]
            is_home_path(home) && place == downloads_of(None, home);
        assert(home is Some ==> place.segments =~= seq!["Downloads"@]);
        assert(home is None ==> place.segments.len() == 0);
    } else {
        assert(place.segments.len() == 0);
    }
}

/// Where the operating system names a directory for configuration, the
/// configuration is kept in `easyenv` there; the home directory is asked for only
/// where it names none.
proof fn configuration_is_where_the_system_says(place: LocationView)
    requires
        is_config_dir(place),
    ensures
        exists|named: Option<PathBuf>| #[trigger]
            call_ensures(os_config_dir, (), named) && (named matches Some(path) ==> place.root
                == RootView::Found(path) && place.segments == seq!["easyenv"@]) && (named is None ==> exists|
                home: Option<PathBuf>,
            | #[trigger]
                is_home_path(home) && (home matches Some(path) ==> place.root == RootView::Found(
                    path,
                ) && place.segments == seq!["easyenv"@]) && (home is None ==> place.root == RootView::Text(""@)
                    && place.segments == seq!["easyenv"@])),
{
    let named = choose|named: Option<PathBuf>| #[trigger]
        call_ensures(os_config_dir, (), named) && (match named {
            Some(path) => place == found(path).join("easyenv"@),
            None => exists|home: Option<PathBuf>| #[trigger]
                is_home_path(home) && place == config_of(None, home),
        });
    if named is None {
        let home = choose|home: Option<PathBuf>| #[trigger]
            is_home_path(home) && place == config_of(None, home);
        assert(home is Some ==> place.segments =~= seq!["easyenv"@]);
        assert(home is None ==> place.segments =~= seq!["easyenv"@]);
    } else {
        assert(place.segments =~= seq!["easyenv"@]);
    }
}

/// Where the operating system names a desktop, the log of the program's start is
/// there; the home directory is asked for only where it names none.
proof fn start_log_is_where_the_system_says(place: LocationView)
    requires
        is_debug_log_file(place),
    ensures
        exists|named: Option<PathBuf>| #[trigger]
            call_ensures(os_desktop_dir, (), named) && (named matches Some(path) ==> place.root
                == RootView::Found(path) && place.segments == seq!["easyenv_debug.log"@]) && (named is None ==> exists|
                home: Option<PathBuf>,
            | #[trigger]
                is_home_path(home) && (home matches Some(path) ==> place.root == RootView::Found(
                    path,
                ) && place.segments == seq!["easyenv_debug.log"@]) && (home is None ==> place.root == RootView::Text("."@)
                    && place.segments == seq!["easyenv_debug.log"@])),
{
    let named = choose|named: Option<PathBuf>| #[trigger]
        call_ensures(os_desktop_dir, (), named) && (match named {
            Some(path) => place == found(path).join("easyenv_debug.log"@),
            None => exists|home: Option<PathBuf>| #[trigger]
                is_home_path(home) && place == debug_log_of(None, home),
        });
    if named is None {
        let home = choose|home: Option<PathBuf>| #[trigger]
            is_home_path(home) && place == debug_log_of(None, home);
        assert(home is Some ==> place.segments =~= seq!["easyenv_debug.log"@]);
        assert(home is None ==> place.segments =~= seq!["easyenv_debug.log"@]);
    } else {
        assert(place.segments =~= seq!["easyenv_debug.log"@]);
    }
}

/// The logs are in `logs` where the configuration is.
pub proof fn logs_are_with_the_configuration(place: LocationView)
    requires
        is_log_dir(place),
    ensures
        exists|dir: LocationView| #[trigger]
            is_config_dir(dir) && place.root == dir.root && place.segments == dir.segments.push(
                "logs"@,
            ),
{
}

/// The reading of a text that may be missing is the text, where it is there.
pub proof fn reading_keeps_the_home(text: String)
    ensures
        home_view(Some(text)) == Some(text@),
        home_view(None) is None,
{
}

} // verus!
