//! Records exchanged with the registry and the version manifest, and their
//! mathematical views.
//!
//! Each record has a view of the same shape in which a string is the sequence
//! of its characters, a vector a sequence, and an integer unbounded. The
//! contracts of the library are stated over these views.

use crate::text::texts;
use vstd::prelude::*;

verus! {

/// Client signature sent with every request.
pub const USER_AGENT: &'static str = "kalkafox/mdget/0.1.0";

/// Root of the registry's HTTP interface.
pub const API_URL: &'static str = "https://api.modrinth.com/v2";

/// A JSON value whose shape the registry leaves open. It is carried through
/// unread: nothing is known of what it holds.
#[verifier::external_type_specification]
#[verifier::external_body]
pub struct ExJsonValue(serde_json::Value);

/// `Clone` of `serde_json::Value`, which the derived `Clone` of a record
/// calls for each such field. Nothing is claimed of the copy.
pub assume_specification[ <serde_json::Value as Clone>::clone ](
    value: &serde_json::Value,
) -> serde_json::Value;

/// The text of an optional string.
pub open spec fn optional_text(s: Option<String>) -> Option<Seq<char>> {
    match s {
        Some(s) => Some(s@),
        None => None,
    }
}

/// The user's target: the game version and the mod loader that files are chosen for.
#[derive(Debug, Clone, PartialEq)]
pub struct Config {
    pub version: String,
    pub loader: String,
}

/// What a [`Config`] holds.
pub ghost struct ConfigView {
    pub version: Seq<char>,
    pub loader: Seq<char>,
}

impl View for Config {
    type V = ConfigView;

    open spec fn view(&self) -> ConfigView {
        ConfigView {
            version: self.version@,
            loader: self.loader@,
        }
    }
}

/// The newest release and the newest snapshot that the version manifest names.
#[derive(Default, Debug, Clone, PartialEq)]
pub struct Latest {
    pub release: String,
    pub snapshot: String,
}

/// What a [`Latest`] holds.
pub ghost struct LatestView {
    pub release: Seq<char>,
    pub snapshot: Seq<char>,
}

impl View for Latest {
    type V = LatestView;

    open spec fn view(&self) -> LatestView {
        LatestView {
            release: self.release@,
            snapshot: self.snapshot@,
        }
    }
}

/// One game version of the version manifest.
#[derive(Default, Debug, Clone, PartialEq)]
pub struct Version {
    pub id: String,
    pub type_field: String,
    pub url: String,
    pub time: String,
    pub release_time: String,
    pub sha1: String,
    pub compliance_level: i64,
}

/// What a [`Version`] holds.
pub ghost struct VersionView {
    pub id: Seq<char>,
    pub type_field: Seq<char>,
    pub url: Seq<char>,
    pub time: Seq<char>,
    pub release_time: Seq<char>,
    pub sha1: Seq<char>,
    pub compliance_level: int,
}

impl View for Version {
    type V = VersionView;

    open spec fn view(&self) -> VersionView {
        VersionView {
            id: self.id@,
            type_field: self.type_field@,
            url: self.url@,
            time: self.time@,
            release_time: self.release_time@,
            sha1: self.sha1@,
            compliance_level: self.compliance_level as int,
        }
    }
}

/// The version manifest: the game versions that exist, in the manifest's order.
#[derive(Default, Debug, Clone, PartialEq)]
pub struct MinecraftVersions {
    pub latest: Latest,
    pub versions: Vec<Version>,
}

/// What a [`MinecraftVersions`] holds.
pub ghost struct MinecraftVersionsView {
    pub latest: LatestView,
    pub versions: Seq<VersionView>,
}

impl View for MinecraftVersions {
    type V = MinecraftVersionsView;

    open spec fn view(&self) -> MinecraftVersionsView {
        MinecraftVersionsView {
            latest: self.latest@,
            versions: self.versions@.map_values(|x: Version| x@),
        }
    }
}

/// The licence of a project.
#[derive(Default, Debug, Clone, PartialEq)]
pub struct License {
    pub id: String,
    pub name: String,
    pub url: Option<String>,
}

/// What a [`License`] holds.
pub ghost struct LicenseView {
    pub id: Seq<char>,
    pub name: Seq<char>,
    pub url: Option<Seq<char>>,
}

impl View for License {
    type V = LicenseView;

    open spec fn view(&self) -> LicenseView {
        LicenseView {
            id: self.id@,
            name: self.name@,
            url: optional_text(self.url),
        }
    }
}

/// A place where a project takes donations.
#[derive(Default, Debug, Clone, PartialEq)]
pub struct DonationUrl {
    pub id: String,
    pub platform: String,
    pub url: String,
}

/// What a [`DonationUrl`] holds.
pub ghost struct DonationUrlView {
    pub id: Seq<char>,
    pub platform: Seq<char>,
    pub url: Seq<char>,
}

impl View for DonationUrl {
    type V = DonationUrlView;

    open spec fn view(&self) -> DonationUrlView {
        DonationUrlView {
            id: self.id@,
            platform: self.platform@,
            url: self.url@,
        }
    }
}

/// One picture of a project's gallery.
#[derive(Default, Debug, Clone, PartialEq)]
pub struct Gallery {
    pub url: String,
    pub featured: bool,
    pub title: String,
    pub description: String,
    pub created: String,
    pub ordering: i64,
}

/// What a [`Gallery`] holds.
pub ghost struct GalleryView {
    pub url: Seq<char>,
    pub featured: bool,
    pub title: Seq<char>,
    pub description: Seq<char>,
    pub created: Seq<char>,
    pub ordering: int,
}

impl View for Gallery {
    type V = GalleryView;

    open spec fn view(&self) -> GalleryView {
        GalleryView {
            url: self.url@,
            featured: self.featured,
            title: self.title@,
            description: self.description@,
            created: self.created@,
            ordering: self.ordering as int,
        }
    }
}

/// The two digests that the registry declares for a file, as hex text.
#[derive(Default, Debug, Clone, PartialEq)]
pub struct Hashes {
    pub sha512: String,
    pub sha1: String,
}

/// What a [`Hashes`] holds.
pub ghost struct HashesView {
    pub sha512: Seq<char>,
    pub sha1: Seq<char>,
}

impl View for Hashes {
    type V = HashesView;

    open spec fn view(&self) -> HashesView {
        HashesView {
            sha512: self.sha512@,
            sha1: self.sha1@,
        }
    }
}

/// One downloadable artifact of a release.
#[derive(Default, Debug, Clone, PartialEq)]
pub struct File {
    pub hashes: Hashes,
    pub url: String,
    pub filename: String,
    pub primary: bool,
    pub size: i64,
    pub file_type: Option<String>,
}

/// What a [`File`] holds.
pub ghost struct FileView {
    pub hashes: HashesView,
    pub url: Seq<char>,
    pub filename: Seq<char>,
    pub primary: bool,
    pub size: int,
    pub file_type: Option<Seq<char>>,
}

impl View for File {
    type V = FileView;

    open spec fn view(&self) -> FileView {
        FileView {
            hashes: self.hashes@,
            url: self.url@,
            filename: self.filename@,
            primary: self.primary,
            size: self.size as int,
            file_type: optional_text(self.file_type),
        }
    }
}

/// An edge from a release to another project or release.
#[derive(Default, Debug, Clone, PartialEq)]
pub struct Dependency {
    pub version_id: Option<String>,
    pub project_id: Option<String>,
    pub file_name: Option<String>,
    pub dependency_type: Option<String>,
}

/// What a [`Dependency`] holds.
pub ghost struct DependencyView {
    pub version_id: Option<Seq<char>>,
    pub project_id: Option<Seq<char>>,
    pub file_name: Option<Seq<char>>,
    pub dependency_type: Option<Seq<char>>,
}

impl View for Dependency {
    type V = DependencyView;

    open spec fn view(&self) -> DependencyView {
        DependencyView {
            version_id: optional_text(self.version_id),
            project_id: optional_text(self.project_id),
            file_name: optional_text(self.file_name),
            dependency_type: optional_text(self.dependency_type),
        }
    }
}

/// One release of a project, as the registry lists it.
#[derive(Default, Debug, Clone, PartialEq)]
pub struct ProjectVersion {
    pub name: Option<String>,
    pub version_number: Option<String>,
    pub changelog: Option<String>,
    pub dependencies: Vec<Dependency>,
    pub game_versions: Vec<String>,
    pub version_type: Option<String>,
    pub loaders: Vec<String>,
    pub featured: bool,
    pub status: Option<String>,
    pub requested_status: Option<String>,
    pub id: Option<String>,
    pub project_id: Option<String>,
    pub author_id: Option<String>,
    pub date_published: Option<String>,
    pub downloads: i64,
    pub changelog_url: Option<String>,
    pub files: Vec<File>,
}

/// What a [`ProjectVersion`] holds.
pub ghost struct ProjectVersionView {
    pub name: Option<Seq<char>>,
    pub version_number: Option<Seq<char>>,
    pub changelog: Option<Seq<char>>,
    pub dependencies: Seq<DependencyView>,
    pub game_versions: Seq<Seq<char>>,
    pub version_type: Option<Seq<char>>,
    pub loaders: Seq<Seq<char>>,
    pub featured: bool,
    pub status: Option<Seq<char>>,
    pub requested_status: Option<Seq<char>>,
    pub id: Option<Seq<char>>,
    pub project_id: Option<Seq<char>>,
    pub author_id: Option<Seq<char>>,
    pub date_published: Option<Seq<char>>,
    pub downloads: int,
    pub changelog_url: Option<Seq<char>>,
    pub files: Seq<FileView>,
}

impl View for ProjectVersion {
    type V = ProjectVersionView;

    open spec fn view(&self) -> ProjectVersionView {
        ProjectVersionView {
            name: optional_text(self.name),
            version_number: optional_text(self.version_number),
            changelog: optional_text(self.changelog),
            dependencies: self.dependencies@.map_values(|x: Dependency| x@),
            game_versions: texts(self.game_versions@),
            version_type: optional_text(self.version_type),
            loaders: texts(self.loaders@),
            featured: self.featured,
            status: optional_text(self.status),
            requested_status: optional_text(self.requested_status),
            id: optional_text(self.id),
            project_id: optional_text(self.project_id),
            author_id: optional_text(self.author_id),
            date_published: optional_text(self.date_published),
            downloads: self.downloads as int,
            changelog_url: optional_text(self.changelog_url),
            files: self.files@.map_values(|x: File| x@),
        }
    }
}

/// One release of a project in the registry's detailed form, where every text is present.
#[derive(Default, Debug, Clone, PartialEq)]
pub struct DVersion {
    pub name: String,
    pub version_number: String,
    pub changelog: String,
    pub dependencies: Vec<Dependency>,
    pub game_versions: Vec<String>,
    pub version_type: String,
    pub loaders: Vec<String>,
    pub featured: bool,
    pub status: String,
    pub requested_status: String,
    pub id: String,
    pub project_id: String,
    pub author_id: String,
    pub date_published: String,
    pub downloads: i64,
    pub changelog_url: serde_json::Value,
    pub files: Vec<File>,
}

/// What a [`DVersion`] holds.
pub ghost struct DVersionView {
    pub name: Seq<char>,
    pub version_number: Seq<char>,
    pub changelog: Seq<char>,
    pub dependencies: Seq<DependencyView>,
    pub game_versions: Seq<Seq<char>>,
    pub version_type: Seq<char>,
    pub loaders: Seq<Seq<char>>,
    pub featured: bool,
    pub status: Seq<char>,
    pub requested_status: Seq<char>,
    pub id: Seq<char>,
    pub project_id: Seq<char>,
    pub author_id: Seq<char>,
    pub date_published: Seq<char>,
    pub downloads: int,
    pub changelog_url: serde_json::Value,
    pub files: Seq<FileView>,
}

impl View for DVersion {
    type V = DVersionView;

    open spec fn view(&self) -> DVersionView {
        DVersionView {
            name: self.name@,
            version_number: self.version_number@,
            changelog: self.changelog@,
            dependencies: self.dependencies@.map_values(|x: Dependency| x@),
            game_versions: texts(self.game_versions@),
            version_type: self.version_type@,
            loaders: texts(self.loaders@),
            featured: self.featured,
            status: self.status@,
            requested_status: self.requested_status@,
            id: self.id@,
            project_id: self.project_id@,
            author_id: self.author_id@,
            date_published: self.date_published@,
            downloads: self.downloads as int,
            changelog_url: self.changelog_url,
            files: self.files@.map_values(|x: File| x@),
        }
    }
}

/// A project as the registry answers a query for it.
#[derive(Default, Debug, Clone, PartialEq)]
pub struct ModrinthProject {
    pub id: String,
    pub slug: String,
    pub project_type: String,
    pub team: String,
    pub title: String,
    pub description: String,
    pub body: String,
    pub body_url: serde_json::Value,
    pub published: String,
    pub updated: String,
    pub approved: String,
    pub queued: serde_json::Value,
    pub status: String,
    pub requested_status: serde_json::Value,
    pub moderator_message: serde_json::Value,
    pub license: License,
    pub client_side: String,
    pub server_side: String,
    pub downloads: i64,
    pub followers: i64,
    pub categories: Vec<String>,
    pub additional_categories: Vec<serde_json::Value>,
    pub game_versions: Vec<String>,
    pub loaders: Vec<String>,
    pub versions: Vec<String>,
    pub icon_url: String,
    pub issues_url: String,
    pub source_url: String,
    pub wiki_url: serde_json::Value,
    pub discord_url: String,
    pub donation_urls: Vec<DonationUrl>,
    pub gallery: Vec<serde_json::Value>,
    pub flame_anvil_project: serde_json::Value,
    pub flame_anvil_user: serde_json::Value,
    pub color: i64,
}

/// What a [`ModrinthProject`] holds.
pub ghost struct ModrinthProjectView {
    pub id: Seq<char>,
    pub slug: Seq<char>,
    pub project_type: Seq<char>,
    pub team: Seq<char>,
    pub title: Seq<char>,
    pub description: Seq<char>,
    pub body: Seq<char>,
    pub body_url: serde_json::Value,
    pub published: Seq<char>,
    pub updated: Seq<char>,
    pub approved: Seq<char>,
    pub queued: serde_json::Value,
    pub status: Seq<char>,
    pub requested_status: serde_json::Value,
    pub moderator_message: serde_json::Value,
    pub license: LicenseView,
    pub client_side: Seq<char>,
    pub server_side: Seq<char>,
    pub downloads: int,
    pub followers: int,
    pub categories: Seq<Seq<char>>,
    pub additional_categories: Seq<serde_json::Value>,
    pub game_versions: Seq<Seq<char>>,
    pub loaders: Seq<Seq<char>>,
    pub versions: Seq<Seq<char>>,
    pub icon_url: Seq<char>,
    pub issues_url: Seq<char>,
    pub source_url: Seq<char>,
    pub wiki_url: serde_json::Value,
    pub discord_url: Seq<char>,
    pub donation_urls: Seq<DonationUrlView>,
    pub gallery: Seq<serde_json::Value>,
    pub flame_anvil_project: serde_json::Value,
    pub flame_anvil_user: serde_json::Value,
    pub color: int,
}

impl View for ModrinthProject {
    type V = ModrinthProjectView;

    open spec fn view(&self) -> ModrinthProjectView {
        ModrinthProjectView {
            id: self.id@,
            slug: self.slug@,
            project_type: self.project_type@,
            team: self.team@,
            title: self.title@,
            description: self.description@,
            body: self.body@,
            body_url: self.body_url,
            published: self.published@,
            updated: self.updated@,
            approved: self.approved@,
            queued: self.queued,
            status: self.status@,
            requested_status: self.requested_status,
            moderator_message: self.moderator_message,
            license: self.license@,
            client_side: self.client_side@,
            server_side: self.server_side@,
            downloads: self.downloads as int,
            followers: self.followers as int,
            categories: texts(self.categories@),
            additional_categories: self.additional_categories@,
            game_versions: texts(self.game_versions@),
            loaders: texts(self.loaders@),
            versions: texts(self.versions@),
            icon_url: self.icon_url@,
            issues_url: self.issues_url@,
            source_url: self.source_url@,
            wiki_url: self.wiki_url,
            discord_url: self.discord_url@,
            donation_urls: self.donation_urls@.map_values(|x: DonationUrl| x@),
            gallery: self.gallery@,
            flame_anvil_project: self.flame_anvil_project,
            flame_anvil_user: self.flame_anvil_user,
            color: self.color as int,
        }
    }
}

/// A project in the registry's older form, with a typed gallery.
#[derive(Default, Debug, Clone, PartialEq)]
pub struct Project {
    pub slug: String,
    pub title: String,
    pub description: String,
    pub categories: Vec<String>,
    pub client_side: String,
    pub server_side: String,
    pub body: String,
    pub additional_categories: Vec<serde_json::Value>,
    pub issues_url: String,
    pub source_url: String,
    pub wiki_url: String,
    pub discord_url: String,
    pub donation_urls: Vec<DonationUrl>,
    pub project_type: String,
    pub downloads: i64,
    pub icon_url: String,
    pub color: i64,
    pub id: String,
    pub team: String,
    pub body_url: serde_json::Value,
    pub moderator_message: serde_json::Value,
    pub published: String,
    pub updated: String,
    pub approved: String,
    pub followers: i64,
    pub status: String,
    pub license: License,
    pub versions: Vec<String>,
    pub game_versions: Vec<String>,
    pub loaders: Vec<String>,
    pub gallery: Vec<Gallery>,
}

/// What a [`Project`] holds.
pub ghost struct ProjectView {
    pub slug: Seq<char>,
    pub title: Seq<char>,
    pub description: Seq<char>,
    pub categories: Seq<Seq<char>>,
    pub client_side: Seq<char>,
    pub server_side: Seq<char>,
    pub body: Seq<char>,
    pub additional_categories: Seq<serde_json::Value>,
    pub issues_url: Seq<char>,
    pub source_url: Seq<char>,
    pub wiki_url: Seq<char>,
    pub discord_url: Seq<char>,
    pub donation_urls: Seq<DonationUrlView>,
    pub project_type: Seq<char>,
    pub downloads: int,
    pub icon_url: Seq<char>,
    pub color: int,
    pub id: Seq<char>,
    pub team: Seq<char>,
    pub body_url: serde_json::Value,
    pub moderator_message: serde_json::Value,
    pub published: Seq<char>,
    pub updated: Seq<char>,
    pub approved: Seq<char>,
    pub followers: int,
    pub status: Seq<char>,
    pub license: LicenseView,
    pub versions: Seq<Seq<char>>,
    pub game_versions: Seq<Seq<char>>,
    pub loaders: Seq<Seq<char>>,
    pub gallery: Seq<GalleryView>,
}

impl View for Project {
    type V = ProjectView;

    open spec fn view(&self) -> ProjectView {
        ProjectView {
            slug: self.slug@,
            title: self.title@,
            description: self.description@,
            categories: texts(self.categories@),
            client_side: self.client_side@,
            server_side: self.server_side@,
            body: self.body@,
            additional_categories: self.additional_categories@,
            issues_url: self.issues_url@,
            source_url: self.source_url@,
            wiki_url: self.wiki_url@,
            discord_url: self.discord_url@,
            donation_urls: self.donation_urls@.map_values(|x: DonationUrl| x@),
            project_type: self.project_type@,
            downloads: self.downloads as int,
            icon_url: self.icon_url@,
            color: self.color as int,
            id: self.id@,
            team: self.team@,
            body_url: self.body_url,
            moderator_message: self.moderator_message,
            published: self.published@,
            updated: self.updated@,
            approved: self.approved@,
            followers: self.followers as int,
            status: self.status@,
            license: self.license@,
            versions: texts(self.versions@),
            game_versions: texts(self.game_versions@),
            loaders: texts(self.loaders@),
            gallery: self.gallery@.map_values(|x: Gallery| x@),
        }
    }
}

/// The answer to a query for a project's dependencies: the projects and the releases it depends on.
#[derive(Default, Debug, Clone, PartialEq)]
pub struct Dependencies {
    pub projects: Vec<ModrinthProject>,
    pub versions: Vec<ProjectVersion>,
}

/// What a [`Dependencies`] holds.
pub ghost struct DependenciesView {
    pub projects: Seq<ModrinthProjectView>,
    pub versions: Seq<ProjectVersionView>,
}

impl View for Dependencies {
    type V = DependenciesView;

    open spec fn view(&self) -> DependenciesView {
        DependenciesView {
            projects: self.projects@.map_values(|x: ModrinthProject| x@),
            versions: self.versions@.map_values(|x: ProjectVersion| x@),
        }
    }
}

/// The releases of a project, as the registry lists them.
pub type ProjectVersions = Vec<ProjectVersion>;

/// The views of a list of releases, in order.
pub open spec fn version_views(versions: Seq<ProjectVersion>) -> Seq<ProjectVersionView> {
    versions.map_values(|x: ProjectVersion| x@)
}

/// The views of a list of projects, in order.
pub open spec fn project_views(projects: Seq<ModrinthProject>) -> Seq<ModrinthProjectView> {
    projects.map_values(|x: ModrinthProject| x@)
}

} // verus!
