//! Where the application keeps its data and the engine binary, and where a
//! release of the engine is downloaded from.

use crate::text::{
    ends_with, same_text, slice_text, text_ends_with, to_chars, trim_bounds, trimmed,
};
use vstd::prelude::*;

verus! {

/// Directory of the application below the user's data directory.
pub const APP_DIR_NAME: &'static str = "unofficial-neuro-kar-manager";

/// Directory of the engine binary below the application's directory.
pub const BIN_DIR_NAME: &'static str = "bin";

/// File in which the Android package notes the directory of its native
/// libraries.
pub const ANDROID_LIB_PATH_FILE: &'static str =
    "/data/data/com.inforno.unofficial_neuro_kar_manager/files/native_lib_path.txt";

/// File name of the engine among the native libraries of the Android package.
pub const ANDROID_ENGINE_LIBRARY: &'static str = "librclone-aarch64-linux-android.so";

/// Release of the engine that is downloaded.
pub const DOWNLOAD_RCLONE_VER: &'static str = "1.72.1";

/// Detail of the failure where the engine binary is found nowhere.
pub const BINARY_MISSING: &'static str = "Rclone not found";

/// Detail of the failure where Linux names no data directory.
pub const NO_DATA_DIR: &'static str = "Cannot determine user data directory";

/// Detail of the failure where Windows names no data directory.
pub const NO_APP_DATA: &'static str = "Cannot determine AppData directory";

/// Detail of the failure where macOS names no home directory.
pub const NO_HOME: &'static str = "Cannot determine home directory";

/// Detail of the failure where the executable has no parent directory.
pub const NO_EXECUTABLE_PARENT: &'static str = "Cannot determine executable parent directory";

/// Detail of the failure where the path of the executable is not known.
pub const NO_EXECUTABLE: &'static str = "Cannot determine executable path";

/// What is put before the names of a system that has no release.
pub const UNSUPPORTED_SYSTEM: &'static str = "Unsupported system: ";

/// The families of platforms that store application data differently.
#[derive(Clone, Copy, Debug, PartialEq, Eq, Structural)]
pub enum Platform {
    Linux,
    Windows,
    MacOs,
    Other,
}

/// A path: where it starts, and the names that lead on from there.
#[derive(Debug, PartialEq, Eq)]
pub struct DirPath {
    pub root: String,
    pub parts: Vec<String>,
}

/// What is known of the directory of the running executable.
#[derive(Debug, PartialEq, Eq)]
pub enum ExecutableDir {
    /// The path of the executable is not known.
    Unknown,
    /// The path of the executable has no parent.
    NoParent,
    /// The parent of the path of the executable.
    Parent(String),
}

/// What the environment says of where data can be stored. A variable that is
/// not set, or is not Unicode, is `None`.
#[derive(Debug, PartialEq, Eq)]
pub struct DataDirEnv {
    pub xdg_data_home: Option<String>,
    pub home: Option<String>,
    pub local_app_data: Option<String>,
    pub user_profile: Option<String>,
    pub executable_dir: ExecutableDir,
}

/// Mathematical value of a `DirPath`.
pub ghost struct DirPathView {
    pub root: Seq<char>,
    pub parts: Seq<Seq<char>>,
}

/// Mathematical value of an `ExecutableDir`.
pub ghost enum ExecutableDirView {
    Unknown,
    NoParent,
    Parent(Seq<char>),
}

/// Mathematical value of a `DataDirEnv`.
pub ghost struct DataDirEnvView {
    pub xdg_data_home: Option<Seq<char>>,
    pub home: Option<Seq<char>>,
    pub local_app_data: Option<Seq<char>>,
    pub user_profile: Option<Seq<char>>,
    pub executable_dir: ExecutableDirView,
}

impl View for DirPath {
    type V = DirPathView;

    open spec fn view(&self) -> DirPathView {
        DirPathView { root: self.root@, parts: self.parts.deep_view() }
    }
}

impl DeepView for DirPath {
    type V = DirPathView;

    open spec fn deep_view(&self) -> DirPathView {
        self@
    }
}

impl View for ExecutableDir {
    type V = ExecutableDirView;

    open spec fn view(&self) -> ExecutableDirView {
        match self {
            ExecutableDir::Unknown => ExecutableDirView::Unknown,
            ExecutableDir::NoParent => ExecutableDirView::NoParent,
            ExecutableDir::Parent(dir) => ExecutableDirView::Parent(dir@),
        }
    }
}

impl View for DataDirEnv {
    type V = DataDirEnvView;

    open spec fn view(&self) -> DataDirEnvView {
        DataDirEnvView {
            xdg_data_home: self.xdg_data_home.deep_view(),
            home: self.home.deep_view(),
            local_app_data: self.local_app_data.deep_view(),
            user_profile: self.user_profile.deep_view(),
            executable_dir: self.executable_dir@,
        }
    }
}

/// Mathematical value of a path, or of the detail of the failure to tell it.
pub open spec fn path_result(r: Result<DirPath, String>) -> Result<DirPathView, Seq<char>> {
    match r {
        Ok(path) => Ok(path@),
        Err(detail) => Err(detail@),
    }
}

/// Mathematical value of a text, or of the detail of the failure to tell it.
pub open spec fn text_result(r: Result<String, String>) -> Result<Seq<char>, Seq<char>> {
    match r {
        Ok(text) => Ok(text@),
        Err(detail) => Err(detail@),
    }
}

/// The path that leads from `root` over `parts`.
pub open spec fn path_from(root: Seq<char>, parts: Seq<Seq<char>>) -> DirPathView {
    DirPathView { root, parts }
}

/// The path that leads on from `dir` to `name`.
pub open spec fn joined(dir: DirPathView, name: Seq<char>) -> DirPathView {
    DirPathView { root: dir.root, parts: dir.parts.push(name) }
}

/// Name of the engine binary.
pub open spec fn binary_name(windows: bool) -> Seq<char> {
    if windows {
        "rclone.exe"@
    } else {
        "rclone"@
    }
}

/// The directory in which the application stores its data.
///
/// On Linux it lies below `XDG_DATA_HOME`, or below `.local/share` in `HOME`.
/// On Windows it lies below `LOCALAPPDATA`, or below `AppData\Local` in
/// `USERPROFILE`. On macOS it lies below `Library/Application Support` in
/// `HOME`. Elsewhere it is the directory of the executable.
pub open spec fn app_data_dir(platform: Platform, env: DataDirEnvView) -> Result<
    DirPathView,
    Seq<char>,
> {
    match platform {
        Platform::Linux => match (env.xdg_data_home, env.home) {
            (Some(data), _) => Ok(path_from(data, seq![APP_DIR_NAME@])),
            (None, Some(home)) => Ok(
                path_from(home, seq![".local"@, "share"@, APP_DIR_NAME@]),
            ),
            (None, None) => Err(NO_DATA_DIR@),
        },
        Platform::Windows => match (env.local_app_data, env.user_profile) {
            (Some(data), _) => Ok(path_from(data, seq![APP_DIR_NAME@])),
            (None, Some(profile)) => Ok(
                path_from(profile, seq!["AppData"@, "Local"@, APP_DIR_NAME@]),
            ),
            (None, None) => Err(NO_APP_DATA@),
        },
        Platform::MacOs => match env.home {
            Some(home) => Ok(
                path_from(home, seq!["Library"@, "Application Support"@, APP_DIR_NAME@]),
            ),
            None => Err(NO_HOME@),
        },
        Platform::Other => match env.executable_dir {
            ExecutableDirView::Parent(dir) => Ok(path_from(dir, seq![])),
            ExecutableDirView::NoParent => Err(NO_EXECUTABLE_PARENT@),
            ExecutableDirView::Unknown => Err(NO_EXECUTABLE@),
        },
    }
}

/// The directory of the engine binary: `bin` in the application's data
/// directory, where that is known.
pub open spec fn bin_dir(app_data_dir: Result<DirPathView, Seq<char>>) -> Result<
    DirPathView,
    Seq<char>,
> {
    match app_data_dir {
        Ok(dir) => Ok(joined(dir, BIN_DIR_NAME@)),
        Err(detail) => Err(detail),
    }
}

/// Where the engine binary would lie if it was installed by the application.
pub open spec fn bundled_path(windows: bool, bin_dir: Result<DirPathView, Seq<char>>) -> Option<
    DirPathView,
> {
    match bin_dir {
        Ok(dir) => Some(joined(dir, binary_name(windows))),
        Err(_) => None,
    }
}

/// The engine binary to run: the one that the application installed, where it
/// exists; failing that the one on the search path, where it answers;
/// otherwise none.
pub open spec fn resolved_path(
    windows: bool,
    bundled: Option<DirPathView>,
    bundled_exists: bool,
    on_search_path: bool,
) -> Option<DirPathView> {
    if bundled is Some && bundled_exists {
        bundled
    } else if on_search_path {
        Some(path_from(binary_name(windows), seq![]))
    } else {
        None
    }
}

/// The path of the engine on Android: the engine library in the directory that
/// `noted` names, which is what the package noted, trimmed.
pub open spec fn android_engine_path_text(noted: Seq<char>) -> Seq<char> {
    trimmed(noted) + "/"@ + ANDROID_ENGINE_LIBRARY@
}

/// The names under which the engine's releases know a system; `None` for a
/// system that has no release.
pub open spec fn release_system(os: Seq<char>, arch: Seq<char>) -> Option<(Seq<char>, Seq<char>)> {
    if os == "windows"@ && arch == "x86_64"@ {
        Some(("windows"@, "amd64"@))
    } else if os == "windows"@ && arch == "x86"@ {
        Some(("windows"@, "386"@))
    } else if os == "linux"@ && arch == "x86_64"@ {
        Some(("linux"@, "amd64"@))
    } else if os == "linux"@ && arch == "aarch64"@ {
        Some(("linux"@, "arm64"@))
    } else if os == "macos"@ && arch == "x86_64"@ {
        Some(("osx"@, "amd64"@))
    } else if os == "macos"@ && arch == "aarch64"@ {
        Some(("osx"@, "arm64"@))
    } else {
        None
    }
}

/// Where the release of the engine for the system `os`, `arch` is downloaded
/// from; the failure where there is none.
pub open spec fn download_url_text(os: Seq<char>, arch: Seq<char>) -> Result<Seq<char>, Seq<char>> {
    match release_system(os, arch) {
        Some((system, machine)) => Ok(
            "https://downloads.rclone.org/v"@ + DOWNLOAD_RCLONE_VER@ + "/rclone-v"@
                + DOWNLOAD_RCLONE_VER@ + "-"@ + system + "-"@ + machine + ".zip"@,
        ),
        None => Err(UNSUPPORTED_SYSTEM@ + os + " "@ + arch),
    }
}

/// Name of the file that holds the download until it is unpacked.
pub open spec fn archive_name_text() -> Seq<char> {
    "rclone_temp_"@ + DOWNLOAD_RCLONE_VER@ + ".zip"@
}

/// Index of the first of `names` that ends with `suffix`; their number where
/// none does.
pub open spec fn first_ending_with(names: Seq<Seq<char>>, suffix: Seq<char>) -> int
    decreases names.len(),
{
    if names.len() == 0 || ends_with(names[0], suffix) {
        0
    } else {
        1 + first_ending_with(names.drop_first(), suffix)
    }
}

/// `first_ending_with` is the least index of a name that ends with `suffix`.
pub proof fn lemma_first_ending_with(names: Seq<Seq<char>>, suffix: Seq<char>)
    ensures
        0 <= first_ending_with(names, suffix) <= names.len(),
        forall|j: int| 0 <= j < first_ending_with(names, suffix) ==> !ends_with(names[j], suffix),
        first_ending_with(names, suffix) < names.len() ==> ends_with(
            names[first_ending_with(names, suffix)],
            suffix,
        ),
    decreases names.len(),
{
    if names.len() > 0 && !ends_with(names[0], suffix) {
        let rest = names.drop_first();
        lemma_first_ending_with(rest, suffix);
        assert forall|j: int| 0 <= j < first_ending_with(names, suffix) implies !ends_with(
            names[j],
            suffix,
        ) by {
            if j > 0 {
                assert(names[j] == rest[j - 1]);
            }
        }
    }
}

/// Name of the engine binary on the host platform family.
pub fn get_rclone_binary_name(windows: bool) -> (name: &'static str)
    ensures
        name@ == binary_name(windows),
{
    if windows {
        "rclone.exe"
    } else {
        "rclone"
    }
}

impl DirPath {
    /// The path that starts at `root`.
    pub fn new(root: String) -> (path: DirPath)
        ensures
            path@ == path_from(root@, seq![]),
    {
        let path = DirPath { root, parts: Vec::new() };
        assert(path.parts.deep_view() =~= Seq::<Seq<char>>::empty());
        path
    }

    /// The path that leads on from this one to `name`.
    pub fn join(self, name: &str) -> (path: DirPath)
        ensures
            path@ == joined(self@, name@),
    {
        let mut path = self;
        let ghost before = path.parts.deep_view();
        path.parts.push(name.to_owned());
        assert(path.parts.deep_view() =~= before.push(name@));
        path
    }
}

/// The directory in which the application stores its data.
pub fn get_app_data_dir(platform: Platform, env: &DataDirEnv) -> (r: Result<DirPath, String>)
    ensures
        path_result(r) == app_data_dir(platform, env@),
{
    let r = match platform {
        Platform::Linux => {
            if let Some(data) = &env.xdg_data_home {
                Ok(DirPath::new(data.clone()).join(APP_DIR_NAME))
            } else if let Some(home) = &env.home {
                Ok(DirPath::new(home.clone()).join(".local").join("share").join(APP_DIR_NAME))
            } else {
                Err(NO_DATA_DIR.to_owned())
            }
        },
        Platform::Windows => {
            if let Some(data) = &env.local_app_data {
                Ok(DirPath::new(data.clone()).join(APP_DIR_NAME))
            } else if let Some(profile) = &env.user_profile {
                Ok(DirPath::new(profile.clone()).join("AppData").join("Local").join(APP_DIR_NAME))
            } else {
                Err(NO_APP_DATA.to_owned())
            }
        },
        Platform::MacOs => {
            if let Some(home) = &env.home {
                Ok(
                    DirPath::new(home.clone()).join("Library").join("Application Support").join(
                        APP_DIR_NAME,
                    ),
                )
            } else {
                Err(NO_HOME.to_owned())
            }
        },
        Platform::Other => match &env.executable_dir {
            ExecutableDir::Parent(dir) => Ok(DirPath::new(dir.clone())),
            ExecutableDir::NoParent => Err(NO_EXECUTABLE_PARENT.to_owned()),
            ExecutableDir::Unknown => Err(NO_EXECUTABLE.to_owned()),
        },
    };
    proof {
        let want = app_data_dir(platform, env@);
        match want {
            Ok(dir) => {
                assert(r is Ok);
                assert(r->Ok_0@.parts =~= dir.parts);
            },
            Err(_) => {},
        }
    }
    r
}

/// The directory of the engine binary.
pub fn get_bin_dir(app_data_dir: Result<DirPath, String>) -> (r: Result<DirPath, String>)
    ensures
        path_result(r) == bin_dir(path_result(app_data_dir)),
{
    match app_data_dir {
        Ok(dir) => Ok(dir.join(BIN_DIR_NAME)),
        Err(detail) => Err(detail),
    }
}

/// Where the engine binary would lie if it was installed by the application.
pub fn bundled_rclone_path(windows: bool, bin_dir: Result<DirPath, String>) -> (r: Option<DirPath>)
    ensures
        r.deep_view() == bundled_path(windows, path_result(bin_dir)),
{
    match bin_dir {
        Ok(dir) => Some(dir.join(get_rclone_binary_name(windows))),
        Err(_) => None,
    }
}

/// Chooses the engine binary to run. `bundled_exists` says whether there is a
/// file at `bundled`; `on_search_path` whether the binary answered when it
/// was run by its bare name.
pub fn resolve_rclone_path(
    windows: bool,
    bundled: Option<DirPath>,
    bundled_exists: bool,
    on_search_path: bool,
) -> (r: Option<DirPath>)
    ensures
        r.deep_view() == resolved_path(
            windows,
            bundled.deep_view(),
            bundled_exists,
            on_search_path,
        ),
{
    if bundled.is_some() && bundled_exists {
        bundled
    } else if on_search_path {
        Some(DirPath::new(get_rclone_binary_name(windows).to_owned()))
    } else {
        None
    }
}

/// The path of the engine on Android. `noted` is the content of the file in
/// which the package notes the directory of its native libraries.
pub fn android_engine_path(noted: &str) -> (path: String)
    ensures
        path@ == android_engine_path_text(noted@),
{
    let chars = to_chars(noted);
    let (start, end) = trim_bounds(&chars, 0, chars.len());
    assert(chars@.subrange(0, chars@.len() as int) == chars@);
    let mut path = slice_text(noted, start, end);
    path.append("/");
    path.append(ANDROID_ENGINE_LIBRARY);
    path
}

/// Where the release of the engine for the system `os`, `arch` is downloaded
/// from.
pub fn download_url(os: &str, arch: &str) -> (r: Result<String, String>)
    ensures
        text_result(r) == download_url_text(os@, arch@),
{
    let windows = same_text(os, "windows");
    let linux = same_text(os, "linux");
    let macos = same_text(os, "macos");
    let x86_64 = same_text(arch, "x86_64");
    let x86 = same_text(arch, "x86");
    let aarch64 = same_text(arch, "aarch64");
    let names: Option<(&str, &str)> = if windows && x86_64 {
        Some(("windows", "amd64"))
    } else if windows && x86 {
        Some(("windows", "386"))
    } else if linux && x86_64 {
        Some(("linux", "amd64"))
    } else if linux && aarch64 {
        Some(("linux", "arm64"))
    } else if macos && x86_64 {
        Some(("osx", "amd64"))
    } else if macos && aarch64 {
        Some(("osx", "arm64"))
    } else {
        None
    };
    match names {
        Some((system, machine)) => {
            let mut url = "https://downloads.rclone.org/v".to_owned();
            url.append(DOWNLOAD_RCLONE_VER);
            url.append("/rclone-v");
            url.append(DOWNLOAD_RCLONE_VER);
            url.append("-");
            url.append(system);
            url.append("-");
            url.append(machine);
            url.append(".zip");
            Ok(url)
        },
        None => {
            let mut detail = UNSUPPORTED_SYSTEM.to_owned();
            detail.append(os);
            detail.append(" ");
            detail.append(arch);
            Err(detail)
        },
    }
}

/// Name of the file that holds the download until it is unpacked.
pub fn archive_name() -> (name: String)
    ensures
        name@ == archive_name_text(),
{
    let mut name = "rclone_temp_".to_owned();
    name.append(DOWNLOAD_RCLONE_VER);
    name.append(".zip");
    name
}

/// Finds the engine binary among the entries of the downloaded archive: the
/// first whose name ends with the name of the binary.
pub fn find_binary_entry(names: &Vec<String>, binary: &str) -> (r: Option<usize>)
    ensures
        match r {
            Some(i) => i == first_ending_with(names.deep_view(), binary@) && i < names.len(),
            None => first_ending_with(names.deep_view(), binary@) == names.len(),
        },
{
    let suffix = to_chars(binary);
    let mut i: usize = 0;
    proof {
        assert(names.deep_view().skip(0) =~= names.deep_view());
    }
    while i < names.len()
        invariant
            i <= names.len(),
            suffix@ == binary@,
            first_ending_with(names.deep_view(), binary@) == i + first_ending_with(
                names.deep_view().skip(i as int),
                binary@,
            ),
        decreases names.len() - i,
    {
        let name = to_chars(names[i].as_str());
        proof {
            let rest = names.deep_view().skip(i as int);
            assert(rest[0] == names@[i as int]@);
            assert(rest.drop_first() =~= names.deep_view().skip(i + 1));
        }
        if text_ends_with(&name, &suffix) {
            return Some(i);
        }
        i = i + 1;
    }
    None
}

} // verus!
