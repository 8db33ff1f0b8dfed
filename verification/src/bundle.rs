//! Packaging a plugin as a macOS bundle: the names, paths and project
//! settings that the build steps use. Paths are texts with `/` between
//! their parts, as on the platform that the bundle is for.
use vstd::prelude::*;

verus! {

/// The kind of operator that a plugin is.
#[derive(Clone, Copy, Debug, PartialEq, Eq, Structural)]
pub enum PluginType {
    Chop,
    Sop,
    Dat,
    Top,
}

/// The target that plugins are built for.
pub const TARGET: &'static str = "aarch64-apple-darwin";

/// The directory into which finished bundles are moved.
pub const PLUGIN_HOME: &'static str = "target/plugin";

/// A character of a package name as it stands in the library's name.
pub open spec fn library_char(c: char) -> char {
    if c == '-' {
        '_'
    } else {
        c
    }
}

/// The name of the library that a package builds: the package's name with
/// every `-` turned into `_`.
pub open spec fn library_name_of(package: Seq<char>) -> Seq<char> {
    package.map_values(|c: char| library_char(c))
}

/// The name of the library that the package `package` builds.
pub fn library_name(package: &str) -> (name: String)
    ensures
        name@ == library_name_of(package@),
{
    let n: usize = package.unicode_len();
    let mut name = String::new();
    let mut i: usize = 0;
    while i < n
        invariant
            i <= n,
            n == package@.len(),
            name@ == library_name_of(package@.subrange(0, i as int)),
        decreases n - i,
    {
        let c = package.get_char(i);
        if c == '-' {
            proof {
                reveal_strlit("_");
            }
            name.append("_");
            assert("_"@ =~= seq!['_']);
        } else {
            name.append(package.substring_char(i, i + 1));
        }
        assert(name@ =~= library_name_of(package@.subrange(0, i + 1)));
        i = i + 1;
    }
    assert(package@.subrange(0, n as int) =~= package@);
    name
}

/// The directory of the Xcode project of the plugin `plugin`.
pub fn xcodeproj_dir(plugin: &str) -> (dir: String)
    ensures
        dir@ == plugin@ + ".xcodeproj"@,
{
    let mut dir = String::from_str(plugin);
    dir.append(".xcodeproj");
    dir
}

/// The path of the project file inside the Xcode project of `plugin`.
pub fn pbxproj_path(plugin: &str) -> (path: String)
    ensures
        path@ == plugin@ + ".xcodeproj"@ + "/"@ + "project.pbxproj"@,
{
    let mut path = xcodeproj_dir(plugin);
    path.append("/");
    path.append("project.pbxproj");
    path
}

/// The name of the package that holds the runtime of an operator kind.
pub open spec fn runtime_package_of(plugin_type: PluginType) -> Seq<char> {
    match plugin_type {
        PluginType::Chop => "td-rs-chop"@,
        PluginType::Sop => "td-rs-sop"@,
        PluginType::Dat => "td-rs-dat"@,
        PluginType::Top => "td-rs-top"@,
    }
}

/// The package that holds the runtime of an operator kind. It is built
/// together with the plugin.
pub fn runtime_package(plugin_type: PluginType) -> (package: &'static str)
    ensures
        package@ == runtime_package_of(plugin_type),
{
    match plugin_type {
        PluginType::Chop => "td-rs-chop",
        PluginType::Sop => "td-rs-sop",
        PluginType::Dat => "td-rs-dat",
        PluginType::Top => "td-rs-top",
    }
}

/// The directory name of an operator kind among the project templates.
pub open spec fn template_dir_of(plugin_type: PluginType) -> Seq<char> {
    match plugin_type {
        PluginType::Chop => "chop"@,
        PluginType::Sop => "sop"@,
        PluginType::Dat => "dat"@,
        PluginType::Top => "top"@,
    }
}

/// The path of the Xcode project template for an operator kind.
pub fn template_path(plugin_type: PluginType) -> (path: String)
    ensures
        path@ == "td-rs-xtask/xcode/"@ + template_dir_of(plugin_type) + "/project.pbxproj"@,
{
    let mut path = String::from_str("td-rs-xtask/xcode/");
    let dir: &'static str = match plugin_type {
        PluginType::Chop => "chop",
        PluginType::Sop => "sop",
        PluginType::Dat => "dat",
        PluginType::Top => "top",
    };
    path.append(dir);
    path.append("/project.pbxproj");
    path
}

/// The packages that are built for a plugin: the plugin itself, then the
/// runtime of its kind.
pub fn cargo_packages(plugin: &str, plugin_type: PluginType) -> (packages: Vec<String>)
    ensures
        packages@.len() == 2,
        packages@[0]@ == plugin@,
        packages@[1]@ == runtime_package_of(plugin_type),
{
    let mut packages: Vec<String> = Vec::new();
    packages.push(String::from_str(plugin));
    packages.push(String::from_str(runtime_package(plugin_type)));
    packages
}

/// The arguments of a build for `target`: a release build for that target.
pub fn cargo_arguments(target: &str) -> (arguments: Vec<String>)
    ensures
        arguments@.len() == 2,
        arguments@[0]@ == "--release"@,
        arguments@[1]@ == "--target="@ + target@,
{
    let mut arguments: Vec<String> = Vec::new();
    arguments.push(String::from_str("--release"));
    let mut target_argument = String::from_str("--target=");
    target_argument.append(target);
    arguments.push(target_argument);
    arguments
}

/// The arguments with which the Xcode project of `plugin` is built: a
/// clean build of the project in the working directory.
pub fn xcodebuild_arguments(plugin: &str) -> (arguments: Vec<String>)
    ensures
        arguments@.len() == 4,
        arguments@[0]@ == "-project"@,
        arguments@[1]@ == "./"@ + plugin@ + ".xcodeproj"@,
        arguments@[2]@ == "clean"@,
        arguments@[3]@ == "build"@,
{
    let mut arguments: Vec<String> = Vec::new();
    arguments.push(String::from_str("-project"));
    let mut project = String::from_str("./");
    project.append(plugin);
    project.append(".xcodeproj");
    arguments.push(project);
    arguments.push(String::from_str("clean"));
    arguments.push(String::from_str("build"));
    arguments
}

/// The file name of the bundle of `plugin`.
pub fn bundle_name(plugin: &str) -> (name: String)
    ensures
        name@ == plugin@ + ".plugin"@,
{
    let mut name = String::from_str(plugin);
    name.append(".plugin");
    name
}

/// Where Xcode leaves the bundle of `plugin`.
pub fn built_bundle_path(plugin: &str) -> (path: String)
    ensures
        path@ == "build/Release/"@ + plugin@ + ".plugin"@,
{
    let mut path = String::from_str("build/Release/");
    path.append(plugin);
    path.append(".plugin");
    path
}

/// The directory that the bundle of `plugin` is moved into.
pub fn plugin_target_dir(plugin: &str) -> (path: String)
    ensures
        path@ == PLUGIN_HOME@ + "/"@ + plugin@,
{
    let mut path = String::from_str(PLUGIN_HOME);
    path.append("/");
    path.append(plugin);
    path
}

/// Where the bundle of `plugin` lies once it has been moved.
pub fn installed_bundle_path(plugin: &str) -> (path: String)
    ensures
        path@ == PLUGIN_HOME@ + "/"@ + plugin@ + "/"@ + plugin@ + ".plugin"@,
{
    let mut path = plugin_target_dir(plugin);
    path.append("/");
    path.append(plugin);
    path.append(".plugin");
    path
}

/// The file name of the static library of `plugin`.
pub fn static_library_name(plugin: &str) -> (name: String)
    ensures
        name@ == "lib"@ + plugin@ + ".a"@,
{
    let mut name = String::from_str("lib");
    name.append(plugin);
    name.append(".a");
    name
}

/// Where a release build for `target` leaves the static library of
/// `plugin`.
pub fn static_library_path(target: &str, plugin: &str) -> (path: String)
    ensures
        path@ == "target/"@ + target@ + "/release/lib"@ + plugin@ + ".a"@,
{
    let mut path = String::from_str("target/");
    path.append(target);
    path.append("/release/lib");
    path.append(plugin);
    path.append(".a");
    path
}

/// What the steps of building and packaging one plugin work on: the
/// packages to build and the arguments of that build, the name of the
/// library that comes out of it, and the places of the Xcode project, of its
/// template and of the bundle before and after it is moved.
pub struct BuildPlan {
    pub packages: Vec<String>,
    pub cargo_arguments: Vec<String>,
    pub library: String,
    pub template: String,
    pub project_dir: String,
    pub project_file: String,
    pub xcodebuild_arguments: Vec<String>,
    pub built_bundle: String,
    pub target_dir: String,
    pub installed_bundle: String,
}

/// The plan for the plugin package `plugin` of the given kind. The build
/// takes the package under its own name; every later step goes by the name
/// of the library that the package builds.
pub fn build_plan(plugin: &str, plugin_type: PluginType) -> (plan: BuildPlan)
    ensures
        plan.packages@.len() == 2,
        plan.packages@[0]@ == plugin@,
        plan.packages@[1]@ == runtime_package_of(plugin_type),
        plan.cargo_arguments@.len() == 2,
        plan.cargo_arguments@[0]@ == "--release"@,
        plan.cargo_arguments@[1]@ == "--target="@ + TARGET@,
        plan.library@ == library_name_of(plugin@),
        plan.template@ == "td-rs-xtask/xcode/"@ + template_dir_of(plugin_type) + "/project.pbxproj"@,
        plan.project_dir@ == plan.library@ + ".xcodeproj"@,
        plan.project_file@ == plan.library@ + ".xcodeproj"@ + "/"@ + "project.pbxproj"@,
        plan.xcodebuild_arguments@.len() == 4,
        plan.xcodebuild_arguments@[0]@ == "-project"@,
        plan.xcodebuild_arguments@[1]@ == "./"@ + plan.library@ + ".xcodeproj"@,
        plan.xcodebuild_arguments@[2]@ == "clean"@,
        plan.xcodebuild_arguments@[3]@ == "build"@,
        plan.built_bundle@ == "build/Release/"@ + plan.library@ + ".plugin"@,
        plan.target_dir@ == PLUGIN_HOME@ + "/"@ + plan.library@,
        plan.installed_bundle@ == PLUGIN_HOME@ + "/"@ + plan.library@ + "/"@ + plan.library@ + ".plugin"@,
{
    let library = library_name(plugin);
    BuildPlan {
        packages: cargo_packages(plugin, plugin_type),
        cargo_arguments: cargo_arguments(TARGET),
        template: template_path(plugin_type),
        project_dir: xcodeproj_dir(library.as_str()),
        project_file: pbxproj_path(library.as_str()),
        xcodebuild_arguments: xcodebuild_arguments(library.as_str()),
        built_bundle: built_bundle_path(library.as_str()),
        target_dir: plugin_target_dir(library.as_str()),
        installed_bundle: installed_bundle_path(library.as_str()),
        library,
    }
}

} // verus!
